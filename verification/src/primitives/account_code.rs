//! Account codes: sections of digits, written with dots between them.
use std::str::FromStr;
use vstd::prelude::*;

verus! {

/// A decimal digit.
pub open spec fn is_digit(c: char) -> bool {
    '0' <= c <= '9'
}

/// What a section may hold: at least one character, and digits only.
pub open spec fn is_section_text(text: Seq<char>) -> bool {
    &&& text.len() > 0
    &&& forall|i: int| 0 <= i < text.len() ==> is_digit(#[trigger] text[i])
}

/// The text of a code: its sections with a dot between each two.
pub open spec fn dotted(sections: Seq<Seq<char>>) -> Seq<char>
    decreases sections.len(),
{
    if sections.len() == 0 {
        Seq::empty()
    } else if sections.len() == 1 {
        sections[0]
    } else {
        dotted(sections.drop_last()) + seq!['.'] + sections.last()
    }
}

/// The parts of a text between its dots.
pub open spec fn split_at_dots(text: Seq<char>) -> Seq<Seq<char>>
    decreases text.len(),
{
    if text.len() == 0 {
        seq![Seq::empty()]
    } else {
        let parts = split_at_dots(text.drop_last());
        if text.last() == '.' {
            parts.push(Seq::empty())
        } else {
            parts.drop_last().push(parts.last().push(text.last()))
        }
    }
}

/// Every section of a code is well formed.
pub open spec fn is_code(sections: Seq<Seq<char>>) -> bool {
    forall|i: int| 0 <= i < sections.len() ==> is_section_text(#[trigger] sections[i])
}

/// `parent` is a proper, non-empty prefix of `child`, section by section.
pub open spec fn is_parent_code(parent: Seq<Seq<char>>, child: Seq<Seq<char>>) -> bool {
    &&& 0 < parent.len() < child.len()
    &&& child.take(parent.len() as int) == parent
}

/// Lexicographic order of texts.
pub open spec fn text_precedes(a: Seq<char>, b: Seq<char>) -> bool
    decreases a.len(),
{
    if b.len() == 0 {
        false
    } else if a.len() == 0 {
        true
    } else if a[0] != b[0] {
        a[0] < b[0]
    } else {
        text_precedes(a.drop_first(), b.drop_first())
    }
}

/// Lexicographic order of codes, section by section.
pub open spec fn code_precedes(a: Seq<Seq<char>>, b: Seq<Seq<char>>) -> bool
    decreases a.len(),
{
    if b.len() == 0 {
        false
    } else if a.len() == 0 {
        true
    } else if a[0] != b[0] {
        text_precedes(a[0], b[0])
    } else {
        code_precedes(a.drop_first(), b.drop_first())
    }
}

/// Why a text is no section of an account code.
#[derive(Debug, Clone, Copy, PartialEq, Eq, Structural)]
pub enum AccountCodeSectionParseError {
    Empty,
    NonDigit,
}

/// Why an account code was refused.
#[derive(Debug, Clone, Copy, PartialEq, Eq, Structural)]
pub enum AccountCodeParseError {
    InvalidSection,
    InvalidParent,
}

/// One section of an account code.
#[derive(Debug, PartialEq, Eq, Hash)]
pub struct AccountCodeSection {
    code: String,
}

impl View for AccountCodeSection {
    type V = Seq<char>;

    closed spec fn view(&self) -> Seq<char> {
        self.code@
    }
}

impl Clone for AccountCodeSection {
    fn clone(&self) -> (res: Self)
        ensures
            res@ == self@,
    {
        proof {
            use_type_invariant(self);
        }
        AccountCodeSection { code: self.code.clone() }
    }
}

fn is_digit_char(c: char) -> (res: bool)
    ensures
        res == is_digit(c),
{
    '0' <= c && c <= '9'
}

impl AccountCodeSection {
    #[verifier::type_invariant]
    spec fn holds_section_text(self) -> bool {
        is_section_text(self.code@)
    }

    /// Reads a section. An empty text gives `Empty`, a text with another
    /// character than a digit gives `NonDigit`.
    pub fn try_new(text: &str) -> (res: Result<Self, AccountCodeSectionParseError>)
        ensures
            match res {
                Ok(section) => is_section_text(text@) && section@ == text@,
                Err(AccountCodeSectionParseError::Empty) => text@.len() == 0,
                Err(AccountCodeSectionParseError::NonDigit) => text@.len() > 0 && !is_section_text(
                    text@,
                ),
            },
    {
        let len: usize = text.unicode_len();
        if len == 0 {
            return Err(AccountCodeSectionParseError::Empty);
        }
        let mut i: usize = 0;
        while i < len
            invariant
                i <= len,
                len == text@.len(),
                len > 0,
                forall|j: int| 0 <= j < i ==> is_digit(#[trigger] text@[j]),
            decreases len - i,
        {
            if !is_digit_char(text.get_char(i)) {
                assert(!is_digit(text@[i as int]));
                return Err(AccountCodeSectionParseError::NonDigit);
            }
            i = i + 1;
        }
        Ok(AccountCodeSection { code: text.to_owned() })
    }

    /// The section as text.
    pub fn as_str(&self) -> (res: &str)
        ensures
            res@ == self@,
            is_section_text(self@),
    {
        proof {
            use_type_invariant(self);
        }
        self.code.as_str()
    }

    /// Whether two sections hold the same text.
    pub fn same(&self, other: &Self) -> (res: bool)
        ensures
            res == (self@ == other@),
    {
        self.code == other.code
    }

    /// Whether this section comes first in lexicographic order.
    pub fn precedes(&self, other: &Self) -> (res: bool)
        ensures
            res == text_precedes(self@, other@),
    {
        let a: &str = self.code.as_str();
        let b: &str = other.code.as_str();
        let a_len: usize = a.unicode_len();
        let b_len: usize = b.unicode_len();
        let mut i: usize = 0;
        assert(a@.skip(0) =~= a@);
        assert(b@.skip(0) =~= b@);
        while i < a_len && i < b_len
            invariant
                a@ == self@,
                b@ == other@,
                a_len == a@.len(),
                b_len == b@.len(),
                i <= a_len,
                i <= b_len,
                text_precedes(a@, b@) == text_precedes(a@.skip(i as int), b@.skip(i as int)),
            decreases a_len - i,
        {
            let x: char = a.get_char(i);
            let y: char = b.get_char(i);
            if x != y {
                assert(a@.skip(i as int)[0] == x && b@.skip(i as int)[0] == y);
                return x < y;
            }
            assert(a@.skip(i as int).drop_first() =~= a@.skip(i + 1));
            assert(b@.skip(i as int).drop_first() =~= b@.skip(i + 1));
            i = i + 1;
        }
        i < b_len
    }
}

impl FromStr for AccountCodeSection {
    type Err = AccountCodeSectionParseError;

    /// As `try_new`.
    fn from_str(s: &str) -> (res: Result<Self, AccountCodeSectionParseError>)
        ensures
            match res {
                Ok(section) => is_section_text(s@) && section@ == s@,
                Err(AccountCodeSectionParseError::Empty) => s@.len() == 0,
                Err(AccountCodeSectionParseError::NonDigit) => s@.len() > 0 && !is_section_text(s@),
            },
    {
        AccountCodeSection::try_new(s)
    }
}

/// An account code.
#[derive(Debug, PartialEq, Eq, Hash)]
pub struct AccountCode {
    sections: Vec<AccountCodeSection>,
}

/// The texts of a list of sections.
pub open spec fn section_texts(sections: Seq<AccountCodeSection>) -> Seq<Seq<char>> {
    sections.map_values(|section: AccountCodeSection| section@)
}

impl View for AccountCode {
    type V = Seq<Seq<char>>;

    closed spec fn view(&self) -> Seq<Seq<char>> {
        section_texts(self.sections@)
    }
}

impl Clone for AccountCode {
    fn clone(&self) -> (res: Self)
        ensures
            res@ == self@,
    {
        let sections: Vec<AccountCodeSection> = self.sections.clone();
        assert(section_texts(sections@) =~= section_texts(self.sections@));
        AccountCode { sections }
    }
}

impl FromStr for AccountCode {
    type Err = AccountCodeParseError;

    /// As `try_parse`.
    fn from_str(s: &str) -> (res: Result<Self, AccountCodeParseError>)
        ensures
            match res {
                Ok(code) => is_code(code@) && dotted(code@) == s@,
                Err(e) => e is InvalidSection && !exists|sections: Seq<Seq<char>>|
                    is_code(sections) && #[trigger] dotted(sections) == s@,
            },
    {
        AccountCode::try_parse(s)
    }
}

/// Splitting a text and writing the dots back gives the text.
proof fn lemma_dotted_split(text: Seq<char>)
    ensures
        split_at_dots(text).len() > 0,
        dotted(split_at_dots(text)) == text,
    decreases text.len(),
{
    if text.len() > 0 {
        let head = text.drop_last();
        lemma_dotted_split(head);
        let before = split_at_dots(head);
        let parts = split_at_dots(text);
        assert(parts.drop_last() =~= if text.last() == '.' {
            before
        } else {
            before.drop_last()
        });
        assert(head.push(text.last()) =~= text);
        assert(dotted(parts) =~= text);
    }
}

/// Characters that are no dots extend the last part.
proof fn lemma_split_extends_last(text: Seq<char>, more: Seq<char>)
    requires
        forall|i: int| 0 <= i < more.len() ==> #[trigger] more[i] != '.',
    ensures
        split_at_dots(text).len() > 0,
        split_at_dots(text + more) == split_at_dots(text).drop_last().push(
            split_at_dots(text).last() + more,
        ),
    decreases more.len(),
{
    lemma_dotted_split(text);
    let parts = split_at_dots(text);
    if more.len() == 0 {
        assert(text + more =~= text);
        assert(parts.last() + more =~= parts.last());
        assert(parts =~= parts.drop_last().push(parts.last()));
    } else {
        lemma_split_extends_last(text, more.drop_last());
        assert((text + more).drop_last() =~= text + more.drop_last());
        assert(more[more.len() - 1] != '.');
        let shorter = parts.drop_last().push(parts.last() + more.drop_last());
        assert(shorter.drop_last() =~= parts.drop_last());
        assert(parts.last() + more.drop_last().push(more.last()) =~= (parts.last()
            + more.drop_last()).push(more.last()));
        assert(more.drop_last().push(more.last()) =~= more);
    }
}

/// A section holds no dot.
proof fn lemma_section_has_no_dot(text: Seq<char>)
    requires
        is_section_text(text),
    ensures
        forall|i: int| 0 <= i < text.len() ==> #[trigger] text[i] != '.',
{
    assert forall|i: int| 0 <= i < text.len() implies #[trigger] text[i] != '.' by {
        assert(is_digit(text[i]));
    }
}

/// The parts of a code's text are the code's sections.
proof fn lemma_split_dotted(sections: Seq<Seq<char>>)
    requires
        is_code(sections),
        sections.len() > 0,
    ensures
        split_at_dots(dotted(sections)) == sections,
    decreases sections.len(),
{
    let last = sections.last();
    assert(is_section_text(sections[sections.len() - 1]));
    lemma_section_has_no_dot(last);
    let empty = Seq::<char>::empty();
    if sections.len() == 1 {
        lemma_split_extends_last(empty, last);
        assert(empty + last =~= last);
        assert(split_at_dots(empty).drop_last().push(empty + last) =~= sections);
    } else {
        let head = sections.drop_last();
        assert(is_code(head)) by {
            assert forall|i: int| 0 <= i < head.len() implies is_section_text(
                #[trigger] head[i],
            ) by {
                assert(is_section_text(sections[i]));
            }
        }
        lemma_split_dotted(head);
        let with_dot = dotted(head) + seq!['.'];
        assert(with_dot.drop_last() =~= dotted(head));
        assert(split_at_dots(with_dot) == head.push(empty));
        lemma_split_extends_last(with_dot, last);
        assert(head.push(empty).drop_last() =~= head);
        assert(empty + last =~= last);
        assert(head.push(last) =~= sections);
    }
}

/// A part that a dot ended stays a part of the whole text.
proof fn lemma_part_stays(text: Seq<char>, end: int, i: int)
    requires
        0 <= end <= text.len(),
        0 <= i < split_at_dots(text.take(end)).len() - 1,
    ensures
        i < split_at_dots(text).len() - 1,
        split_at_dots(text)[i] == split_at_dots(text.take(end))[i],
    decreases text.len() - end,
{
    if end == text.len() {
        assert(text.take(end) =~= text);
    } else {
        assert(text.take(end + 1).drop_last() =~= text.take(end));
        lemma_part_stays(text, end + 1, i);
    }
}

/// A part before a dot that is no section makes the text no code.
proof fn lemma_bad_part(text: Seq<char>, dot: int, i: int)
    requires
        0 <= dot < text.len(),
        text[dot] == '.',
        i == split_at_dots(text.take(dot)).len() - 1,
        i >= 0,
        !is_section_text(split_at_dots(text.take(dot))[i]),
    ensures
        !is_code(split_at_dots(text)),
{
    assert(text.take(dot + 1).drop_last() =~= text.take(dot));
    lemma_part_stays(text, dot + 1, i);
    assert(!is_section_text(split_at_dots(text)[i]));
}

/// A text that is not empty is the text of a code exactly if each of its
/// parts is a section.
proof fn lemma_code_text(text: Seq<char>)
    requires
        text.len() > 0,
        !is_code(split_at_dots(text)),
    ensures
        !exists|sections: Seq<Seq<char>>| is_code(sections) && #[trigger] dotted(sections) == text,
{
    assert forall|sections: Seq<Seq<char>>| is_code(sections) implies #[trigger] dotted(sections)
        != text by {
        if dotted(sections) == text {
            assert(sections.len() > 0);
            lemma_split_dotted(sections);
        }
    }
}

/// Two account codes with the same text are the same code, so reading the
/// text that `to_string` wrote gives the code back.
pub proof fn text_determines_code(a: Seq<Seq<char>>, b: Seq<Seq<char>>)
    requires
        is_code(a),
        is_code(b),
        dotted(a) == dotted(b),
    ensures
        a == b,
{
    if a.len() > 0 {
        lemma_split_dotted(a);
        lemma_split_dotted_is_not_empty(a);
    }
    if b.len() > 0 {
        lemma_split_dotted(b);
        lemma_split_dotted_is_not_empty(b);
    }
    if a.len() == 0 && b.len() == 0 {
        assert(a =~= b);
    }
}

proof fn lemma_split_dotted_is_not_empty(sections: Seq<Seq<char>>)
    requires
        is_code(sections),
        sections.len() > 0,
    ensures
        dotted(sections).len() > 0,
{
    assert(is_section_text(sections[sections.len() - 1]));
}

/// A code has the texts of its sections, in their order.
pub proof fn sections_are_taken_one_by_one(sections: Seq<AccountCodeSection>, i: int)
    ensures
        section_texts(sections).len() == sections.len(),
        0 <= i < sections.len() ==> section_texts(sections)[i] == sections[i]@,
{
}

/// A section is made of one or more of the ten digits.
pub proof fn section_is_made_of_digits(text: Seq<char>)
    ensures
        is_section_text(text) <==> text.len() > 0 && forall|i: int|
            0 <= i < text.len() ==> '0' <= #[trigger] text[i] && text[i] <= '9',
        is_code(seq![text]) <==> is_section_text(text),
        is_code(Seq::empty()),
{
    assert(seq![text][0] == text);
    if text.len() > 0 && (forall|i: int|
        0 <= i < text.len() ==> '0' <= #[trigger] text[i] && text[i] <= '9') {
        assert forall|i: int| 0 <= i < text.len() implies is_digit(#[trigger] text[i]) by {}
    }
    if is_section_text(text) {
        assert forall|i: int| 0 <= i < text.len() implies '0' <= #[trigger] text[i] && text[i]
            <= '9' by {
            assert(is_digit(text[i]));
        }
    }
}

/// A code with one more section is one if that is a section.
pub proof fn code_grows_by_sections(sections: Seq<Seq<char>>, section: Seq<char>)
    ensures
        is_code(sections.push(section)) <==> is_code(sections) && is_section_text(section),
{
    let longer = sections.push(section);
    if is_code(longer) {
        assert(longer[sections.len() as int] == section);
        assert forall|i: int| 0 <= i < sections.len() implies is_section_text(
            #[trigger] sections[i],
        ) by {
            assert(longer[i] == sections[i]);
        }
    }
}

/// The text of a code with one more section has a dot and that section at its
/// end. The text of one section is the section.
pub proof fn sections_are_joined_by_dots(sections: Seq<Seq<char>>, section: Seq<char>)
    ensures
        sections.len() == 0 ==> dotted(sections.push(section)) == section,
        sections.len() > 0 ==> dotted(sections.push(section)) == dotted(sections).push('.')
            + section,
        dotted(Seq::empty()).len() == 0,
{
    assert(sections.push(section).drop_last() =~= sections);
    if sections.len() > 0 {
        assert(dotted(sections) + seq!['.'] =~= dotted(sections).push('.'));
    }
}

/// A code is a parent code of another exactly if it has sections, the other has
/// more, and its own are the other's first ones.
pub proof fn parent_code_is_a_beginning(parent: Seq<Seq<char>>, child: Seq<Seq<char>>)
    ensures
        is_parent_code(parent, child) <==> 0 < parent.len() < child.len() && forall|i: int|
            0 <= i < parent.len() ==> #[trigger] child[i] == parent[i],
{
    if 0 < parent.len() < child.len() && (forall|i: int|
        0 <= i < parent.len() ==> #[trigger] child[i] == parent[i]) {
        assert(child.take(parent.len() as int) =~= parent);
    }
    if is_parent_code(parent, child) {
        assert forall|i: int| 0 <= i < parent.len() implies #[trigger] child[i] == parent[i] by {
            assert(child.take(parent.len() as int)[i] == parent[i]);
        }
    }
}

proof fn lemma_text_order(a: Seq<char>, b: Seq<char>, c: Seq<char>)
    ensures
        !(text_precedes(a, b) && text_precedes(b, a)),
        a != b ==> text_precedes(a, b) || text_precedes(b, a),
        text_precedes(a, b) && text_precedes(b, c) ==> text_precedes(a, c),
    decreases a.len(),
{
    if a.len() > 0 && b.len() > 0 {
        let rest = if c.len() > 0 {
            c.drop_first()
        } else {
            c
        };
        lemma_text_order(a.drop_first(), b.drop_first(), rest);
        if a[0] == b[0] && a.drop_first() == b.drop_first() {
            assert(a =~= seq![a[0]] + a.drop_first());
            assert(b =~= seq![b[0]] + b.drop_first());
        }
    } else if a.len() == 0 && b.len() == 0 {
        assert(a =~= b);
    }
}

/// Lexicographic order puts any two different codes one before the other, and
/// goes on from one to the next.
pub proof fn code_order_is_total(a: Seq<Seq<char>>, b: Seq<Seq<char>>, c: Seq<Seq<char>>)
    ensures
        !(code_precedes(a, b) && code_precedes(b, a)),
        a != b ==> code_precedes(a, b) || code_precedes(b, a),
        code_precedes(a, b) && code_precedes(b, c) ==> code_precedes(a, c),
    decreases a.len(),
{
    if a.len() > 0 && b.len() > 0 {
        let rest = if c.len() > 0 {
            c.drop_first()
        } else {
            c
        };
        code_order_is_total(a.drop_first(), b.drop_first(), rest);
        if c.len() > 0 {
            lemma_text_order(a[0], b[0], c[0]);
        } else {
            lemma_text_order(a[0], b[0], Seq::empty());
        }
        if a[0] == b[0] && a.drop_first() == b.drop_first() {
            assert(a =~= seq![a[0]] + a.drop_first());
            assert(b =~= seq![b[0]] + b.drop_first());
        }
    } else if a.len() == 0 && b.len() == 0 {
        assert(a =~= b);
    }
}

/// A parent code comes before its child in lexicographic order.
pub proof fn parent_code_precedes(parent: Seq<Seq<char>>, child: Seq<Seq<char>>)
    requires
        is_parent_code(parent, child),
    ensures
        code_precedes(parent, child),
{
    lemma_prefix_precedes(parent, child);
}

proof fn lemma_prefix_precedes(a: Seq<Seq<char>>, b: Seq<Seq<char>>)
    requires
        a.len() < b.len(),
        b.take(a.len() as int) == a,
    ensures
        code_precedes(a, b),
    decreases a.len(),
{
    if a.len() > 0 {
        assert(a[0] == b.take(a.len() as int)[0]);
        let a1 = a.drop_first();
        let b1 = b.drop_first();
        assert(b1.take(a1.len() as int) =~= a1) by {
            assert forall|i: int| 0 <= i < a1.len() implies b1.take(a1.len() as int)[i]
                == a1[i] by {
                assert(a[i + 1] == b.take(a.len() as int)[i + 1]);
            }
        }
        lemma_prefix_precedes(a1, b1);
    }
}

impl AccountCode {
    /// The code without sections, whose text is empty.
    pub fn without_sections() -> (res: Self)
        ensures
            res@ == Seq::<Seq<char>>::empty(),
    {
        let sections: Vec<AccountCodeSection> = Vec::new();
        assert(section_texts(sections@) =~= Seq::empty());
        AccountCode { sections }
    }

    /// Reads the text of a code. It is refused exactly if it is the text of
    /// no code. The empty text is that of the code without sections.
    pub fn try_parse(text: &str) -> (res: Result<Self, AccountCodeParseError>)
        ensures
            match res {
                Ok(code) => is_code(code@) && dotted(code@) == text@,
                Err(e) => e is InvalidSection && !exists|sections: Seq<Seq<char>>|
                    is_code(sections) && #[trigger] dotted(sections) == text@,
            },
    {
        let len: usize = text.unicode_len();
        let mut sections: Vec<AccountCodeSection> = Vec::new();
        if len == 0 {
            assert(section_texts(sections@) =~= Seq::empty());
            assert(dotted(section_texts(sections@)) =~= text@);
            return Ok(AccountCode { sections });
        }
        let mut start: usize = 0;
        let mut i: usize = 0;
        assert(text@.take(0) =~= Seq::empty());
        assert(section_texts(sections@).push(text@.subrange(0, 0)) =~= split_at_dots(
            text@.take(0),
        ));
        while i < len
            invariant
                start <= i <= len,
                len == text@.len(),
                is_code(section_texts(sections@)),
                split_at_dots(text@.take(i as int)) == section_texts(sections@).push(
                    text@.subrange(start as int, i as int),
                ),
            decreases len - i,
        {
            let ghost before = section_texts(sections@);
            let c: char = text.get_char(i);
            proof {
                assert(text@.take(i + 1).drop_last() =~= text@.take(i as int));
            }
            if c == '.' {
                let part: &str = text.substring_char(start, i);
                match AccountCodeSection::try_new(part) {
                    Ok(section) => {
                        sections.push(section);
                        assert(section_texts(sections@) =~= before.push(part@));
                        start = i + 1;
                    },
                    Err(_) => {
                        proof {
                            lemma_bad_part(text@, i as int, before.len() as int);
                            lemma_code_text(text@);
                        }
                        return Err(AccountCodeParseError::InvalidSection);
                    },
                }
                assert(text@.subrange(i + 1, i + 1) =~= Seq::empty());
                assert(split_at_dots(text@.take(i + 1)) =~= section_texts(sections@).push(
                    Seq::empty(),
                ));
            } else {
                proof {
                    assert(text@.subrange(start as int, i as int).push(c) =~= text@.subrange(
                        start as int,
                        i + 1,
                    ));
                    assert(before.push(text@.subrange(start as int, i as int)).drop_last()
                        =~= before);
                }
            }
            i = i + 1;
        }
        assert(text@.take(len as int) =~= text@);
        let ghost before = section_texts(sections@);
        let part: &str = text.substring_char(start, len);
        match AccountCodeSection::try_new(part) {
            Ok(section) => {
                sections.push(section);
                assert(section_texts(sections@) =~= before.push(part@));
                proof {
                    lemma_dotted_split(text@);
                }
                Ok(AccountCode { sections })
            },
            Err(_) => {
                proof {
                    assert(split_at_dots(text@)[before.len() as int] == part@);
                    lemma_code_text(text@);
                }
                Err(AccountCodeParseError::InvalidSection)
            },
        }
    }

    /// The code with the given sections.
    pub fn new(sections: Vec<AccountCodeSection>) -> (res: Self)
        ensures
            res@ == section_texts(sections@),
    {
        AccountCode { sections }
    }

    /// The sections of the code.
    pub fn into_sections(self) -> (res: Vec<AccountCodeSection>)
        ensures
            section_texts(res@) == self@,
    {
        self.sections
    }

    /// How many sections the code has.
    pub fn len_sections(&self) -> (res: usize)
        ensures
            res == self@.len(),
    {
        self.sections.len()
    }

    /// Whether two codes have the same sections.
    pub fn same(&self, other: &Self) -> (res: bool)
        ensures
            res == (self@ == other@),
    {
        if self.sections.len() != other.sections.len() {
            assert(self@.len() != other@.len());
            return false;
        }
        let mut i: usize = 0;
        while i < self.sections.len()
            invariant
                i <= self.sections.len(),
                self.sections.len() == other.sections.len(),
                forall|j: int| 0 <= j < i ==> #[trigger] self@[j] == other@[j],
            decreases self.sections.len() - i,
        {
            if !self.sections[i].same(&other.sections[i]) {
                assert(self@[i as int] != other@[i as int]);
                return false;
            }
            i = i + 1;
        }
        assert(self@ =~= other@);
        true
    }

    /// Whether this code is a parent of the other one, direct or not.
    pub fn is_parent_of(&self, child: &Self) -> (res: bool)
        ensures
            res == is_parent_code(self@, child@),
    {
        let len: usize = self.sections.len();
        if len == 0 || len >= child.sections.len() {
            return false;
        }
        let ghost head = child@.take(len as int);
        let mut i: usize = 0;
        while i < len
            invariant
                i <= len,
                len == self.sections.len(),
                0 < len < child.sections.len(),
                head == child@.take(len as int),
                forall|j: int| 0 <= j < i ==> #[trigger] self@[j] == head[j],
            decreases len - i,
        {
            if !self.sections[i].same(&child.sections[i]) {
                assert(self@[i as int] != head[i as int]);
                return false;
            }
            i = i + 1;
        }
        assert(self@ =~= head);
        true
    }

    /// Whether this code comes first in lexicographic order.
    pub fn precedes(&self, other: &Self) -> (res: bool)
        ensures
            res == code_precedes(self@, other@),
    {
        let a_len: usize = self.sections.len();
        let b_len: usize = other.sections.len();
        let mut i: usize = 0;
        assert(self@.skip(0) =~= self@);
        assert(other@.skip(0) =~= other@);
        while i < a_len && i < b_len
            invariant
                a_len == self.sections.len(),
                b_len == other.sections.len(),
                i <= a_len,
                i <= b_len,
                code_precedes(self@, other@) == code_precedes(
                    self@.skip(i as int),
                    other@.skip(i as int),
                ),
            decreases a_len - i,
        {
            if !self.sections[i].same(&other.sections[i]) {
                return self.sections[i].precedes(&other.sections[i]);
            }
            assert(self@.skip(i as int).drop_first() =~= self@.skip(i + 1));
            assert(other@.skip(i as int).drop_first() =~= other@.skip(i + 1));
            i = i + 1;
        }
        i < b_len
    }

    /// The code as text, with a dot between sections.
    pub fn to_string(&self) -> (res: String)
        ensures
            is_code(self@),
            res@ == dotted(self@),
    {
        let mut text: String = String::new();
        let mut i: usize = 0;
        while i < self.sections.len()
            invariant
                i <= self.sections.len(),
                forall|j: int| 0 <= j < i ==> is_section_text(#[trigger] self@[j]),
                text@ == dotted(self@.take(i as int)),
            decreases self.sections.len() - i,
        {
            proof {
                reveal_strlit(".");
                assert("."@ =~= seq!['.']);
                assert(self@.take(i + 1).drop_last() =~= self@.take(i as int));
            }
            if i > 0 {
                text.append(".");
            }
            text.append(self.sections[i].as_str());
            i = i + 1;
        }
        assert(self@.take(i as int) =~= self@);
        text
    }
}

} // verus!
