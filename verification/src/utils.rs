//! The conventions of the forms and query strings: an optional field that
//! is sent empty is a field that is absent; a checkbox is ticked by any
//! value but `false` and `off`; a list is sent in one field, with commas
//! between its items.

use crate::text::{opt_text, str_eq, texts};
use vstd::prelude::*;
use vstd::string::*;

verus! {

/// What an optional field holds: nothing where it is absent or empty, else
/// its text.
pub open spec fn present(raw: Option<Seq<char>>) -> Option<Seq<char>> {
    match raw {
        Some(s) => if s.len() == 0 {
            None
        } else {
            Some(s)
        },
        None => None,
    }
}

/// Reads an optional field: `None` where it is absent and where it is
/// empty, else its text, unchanged.
pub fn empty_string_as_none(raw: Option<String>) -> (field: Option<String>)
    ensures
        opt_text(field) == present(opt_text(raw)),
        field is Some ==> field == raw,
{
    match raw {
        Some(s) => if s.as_str().is_empty() {
            None
        } else {
            Some(s)
        },
        None => None,
    }
}

/// A field that is sent empty reads as a field that is not sent at all,
/// and any other field reads as it was sent.
pub proof fn lemma_empty_is_absent(raw: Option<Seq<char>>)
    ensures
        raw is None || raw == Some(Seq::<char>::empty()) ==> present(raw) == present(None),
        present(None) == None::<Seq<char>>,
        raw is Some && raw->0.len() > 0 ==> present(raw) == raw,
{
    if raw is Some && raw->0.len() == 0 {
        assert(raw->0 =~= Seq::<char>::empty());
    }
}

/// Whether a checkbox is ticked: it is where the form sends a value for it
/// other than `false` and `off`, and it is not where the form sends none
/// or an empty one.
pub open spec fn is_ticked(raw: Option<Seq<char>>) -> bool {
    match present(raw) {
        Some(text) => text != "false"@ && text != "off"@,
        None => false,
    }
}

/// Reads a checkbox.
pub fn checkbox(raw: Option<String>) -> (ticked: bool)
    ensures
        ticked == is_ticked(opt_text(raw)),
{
    match raw {
        Some(text) => !text.as_str().is_empty() && !str_eq(text.as_str(), "false") && !str_eq(
            text.as_str(),
            "off",
        ),
        None => false,
    }
}

/// A text without the blanks at its ends.
pub open spec fn trimmed(s: Seq<char>) -> Seq<char>
    decreases s.len(),
{
    if s.len() > 0 && s.first() == ' ' {
        trimmed(s.drop_first())
    } else if s.len() > 0 && s.last() == ' ' {
        trimmed(s.drop_last())
    } else {
        s
    }
}

/// The parts of a text that its commas separate, in order: one part more
/// than it has commas, and a part is empty where nothing stands between
/// two commas or between a comma and an end.
pub open spec fn parts(s: Seq<char>) -> Seq<Seq<char>>
    decreases s.len(),
{
    if s.len() == 0 {
        seq![Seq::empty()]
    } else if s.last() == ',' {
        parts(s.drop_last()).push(Seq::empty())
    } else {
        parts(s.drop_last()).drop_last().push(parts(s.drop_last()).last().push(s.last()))
    }
}

/// The items of a list that is sent in one field: none where the field is
/// absent or empty, else the parts between its commas, each without the
/// blanks at its ends.
pub open spec fn listed(raw: Option<Seq<char>>) -> Seq<Seq<char>> {
    match present(raw) {
        Some(text) => Seq::new(parts(text).len(), |i: int| trimmed(parts(text)[i])),
        None => Seq::empty(),
    }
}

fn trim(s: &str) -> (t: String)
    ensures
        t@ == trimmed(s@),
{
    let n = s.unicode_len();
    let mut from: usize = 0;
    let mut to: usize = n;
    assert(s@.subrange(0, n as int) =~= s@);
    while from < to && s.get_char(from) == ' '
        invariant
            from <= to <= n,
            n == s@.len(),
            trimmed(s@) == trimmed(s@.subrange(from as int, to as int)),
        decreases to - from,
    {
        assert(s@.subrange(from as int, to as int).drop_first() =~= s@.subrange(
            from + 1,
            to as int,
        ));
        from = from + 1;
    }
    while from < to && s.get_char(to - 1) == ' '
        invariant
            from <= to <= n,
            n == s@.len(),
            from < to ==> s@[from as int] != ' ',
            trimmed(s@) == trimmed(s@.subrange(from as int, to as int)),
        decreases to - from,
    {
        assert(s@.subrange(from as int, to as int).drop_last() =~= s@.subrange(
            from as int,
            to - 1,
        ));
        to = to - 1;
    }
    String::from_str(s.substring_char(from, to))
}

/// Reads a list that is sent in one field.
pub fn sequence(raw: Option<String>) -> (items: Vec<String>)
    ensures
        texts(items@) == listed(opt_text(raw)),
{
    let mut items: Vec<String> = Vec::new();
    match raw {
        Some(field) => {
            let text = field.as_str();
            let n = text.unicode_len();
            if n > 0 {
                let mut start: usize = 0;
                let mut i: usize = 0;
                assert(text@.take(0) =~= Seq::<char>::empty());
                assert(text@.subrange(0, 0) =~= Seq::<char>::empty());
                while i < n
                    invariant
                        start <= i <= n,
                        n == text@.len(),
                        parts(text@.take(i as int)).len() == items@.len() + 1,
                        forall|j: int|
                            0 <= j < items@.len() ==> items@[j]@ == trimmed(
                                #[trigger] parts(text@.take(i as int))[j],
                            ),
                        parts(text@.take(i as int)).last() == text@.subrange(
                            start as int,
                            i as int,
                        ),
                    decreases n - i,
                {
                    let ghost before = parts(text@.take(i as int));
                    assert(text@.take(i + 1).drop_last() =~= text@.take(i as int));
                    assert(text@.take(i + 1).last() == text@[i as int]);
                    if text.get_char(i) == ',' {
                        items.push(trim(text.substring_char(start, i)));
                        start = i + 1;
                        assert(text@.subrange(start as int, start as int) =~= Seq::<char>::empty());
                    } else {
                        assert(text@.subrange(start as int, i as int).push(text@[i as int])
                            =~= text@.subrange(start as int, i + 1));
                    }
                    i = i + 1;
                }
                assert(text@.take(n as int) =~= text@);
                items.push(trim(text.substring_char(start, n)));
            }
        },
        None => {},
    }
    assert(texts(items@) =~= listed(opt_text(raw)));
    items
}

} // verus!
