//! Events of the kernel: messages of nul-separated fields, each a key, an equals sign and
//! a value.
use crate::text;
use vstd::prelude::*;

verus! {

/// The parts of `s` between the characters `c`.
pub open spec fn split(s: Seq<char>, c: char) -> Seq<Seq<char>>
    decreases s.len(),
{
    let i = text::find(s, c);
    if i < s.len() {
        seq![s.take(i as int)] + split(s.skip(i as int + 1), c)
    } else {
        seq![s]
    }
}

/// The key of a field: what stands before the first equals sign.
pub open spec fn key_of(part: Seq<char>) -> Seq<char> {
    part.take(text::find(part, '=') as int)
}

/// The value of a field: what stands behind the first equals sign.
pub open spec fn value_of(part: Seq<char>) -> Seq<char> {
    part.skip(text::find(part, '=') as int + 1)
}

/// Whether the part of a message is a field of the given key.
pub open spec fn has_key(part: Seq<char>, key: Seq<char>) -> bool {
    text::find(part, '=') < part.len() && key_of(part) == key
}

/// The value of the last field of the given key.
pub open spec fn last_value(parts: Seq<Seq<char>>, key: Seq<char>) -> Option<Seq<char>>
    decreases parts.len(),
{
    if parts.len() == 0 {
        None
    } else if has_key(parts.last(), key) {
        Some(value_of(parts.last()))
    } else {
        last_value(parts.drop_last(), key)
    }
}

/// The value of the given key in a message.
pub open spec fn message_value(msg: Seq<char>, key: Seq<char>) -> Option<Seq<char>> {
    last_value(split(msg, '\0'), key)
}

/// The value of the given key in a message.
pub fn message_field(msg: &Vec<char>, key: &str) -> (r: Option<String>)
    ensures
        crate::status::opt_text(r) == message_value(msg@, key@),
{
    let mut found: Option<String> = None;
    let mut start: usize = 0;
    let ghost mut done: Seq<Seq<char>> = Seq::empty();
    assert(msg@.skip(0) =~= msg@);
    assert(done + split(msg@, '\0') =~= split(msg@, '\0'));
    loop
        invariant_except_break
            start <= msg@.len(),
            split(msg@, '\0') == done + split(msg@.skip(start as int), '\0'),
            crate::status::opt_text(found) == last_value(done, key@),
        ensures
            crate::status::opt_text(found) == message_value(msg@, key@),
        decreases msg@.len() - start,
    {
        let end = text::find_between(msg, start, msg.len(), '\0');
        let ghost rest = msg@.skip(start as int);
        let ghost part = msg@.subrange(start as int, end as int);
        assert(msg@.subrange(start as int, msg@.len() as int) =~= rest);
        assert(rest.take(end - start) =~= part);
        let eq = text::find_between(msg, start, end, '=');
        if eq < end {
            let name = text::string_of(msg, start, eq);
            assert(key_of(part) =~= name@);
            assert(value_of(part) =~= msg@.subrange(eq + 1, end as int));
            if text::str_eq(name.as_str(), key) {
                found = Some(text::string_of(msg, eq + 1, end));
            }
        }
        proof {
            assert(done.push(part).drop_last() =~= done);
            if end < msg@.len() {
                assert(rest.skip(end - start + 1) =~= msg@.skip(end + 1));
                assert(done + split(rest, '\0') =~= done.push(part) + split(
                    msg@.skip(end + 1),
                    '\0',
                ));
            } else {
                assert(rest =~= part);
                assert(done + split(rest, '\0') =~= done.push(part));
            }
            done = done.push(part);
        }
        if end == msg.len() {
            break;
        }
        start = end + 1;
    }
    found
}

/// `s` without the characters `c` at its start and at its end.
pub open spec fn trim(s: Seq<char>, c: char) -> Seq<char>
    decreases s.len(),
{
    if s.len() > 0 && s[0] == c {
        trim(s.skip(1), c)
    } else if s.len() > 0 && s.last() == c {
        trim(s.drop_last(), c)
    } else {
        s
    }
}

/// A separator between two texts splits them apart.
pub proof fn split_at_separator(a: Seq<char>, b: Seq<char>, c: char)
    ensures
        split(a.push(c) + b, c) == split(a, c) + split(b, c),
    decreases a.len(),
{
    let s = a.push(c) + b;
    let i = text::find(a, c) as int;
    text::find_is_first(a, c);
    assert forall|j: int| 0 <= j < i implies s[j] != c by {
        assert(s[j] == a[j]);
    }
    assert(s[i] == c);
    text::find_unique(s, c, i);
    assert(s.take(i) =~= a.take(i));
    if i < a.len() {
        assert(s.skip(i + 1) =~= a.skip(i + 1).push(c) + b);
        split_at_separator(a.skip(i + 1), b, c);
        assert(split(s, c) =~= split(a, c) + split(b, c));
    } else {
        assert(s.skip(i + 1) =~= b);
        assert(a.take(i) =~= a);
        assert(split(s, c) =~= split(a, c) + split(b, c));
    }
}

/// In two messages in a row a key has its value in the second, unless only the first has it.
pub proof fn last_value_of_both(a: Seq<Seq<char>>, b: Seq<Seq<char>>, key: Seq<char>)
    ensures
        last_value(a + b, key) == match last_value(b, key) {
            Some(v) => Some(v),
            None => last_value(a, key),
        },
    decreases b.len(),
{
    if b.len() == 0 {
        assert(a + b =~= a);
    } else {
        assert((a + b).drop_last() =~= a + b.drop_last());
        assert((a + b).last() == b.last());
        last_value_of_both(a, b.drop_last(), key);
    }
}

/// In two messages that a nul character separates, a key has its value in the second, unless
/// only the first has it: the last field of a key counts.
pub proof fn later_field_wins(a: Seq<char>, b: Seq<char>, key: Seq<char>)
    ensures
        message_value(a.push('\0') + b, key) == match message_value(b, key) {
            Some(v) => Some(v),
            None => message_value(a, key),
        },
{
    split_at_separator(a, b, '\0');
    last_value_of_both(split(a, '\0'), split(b, '\0'), key);
}

/// An empty message has no fields.
pub proof fn empty_message(key: Seq<char>)
    ensures
        message_value(Seq::empty(), key) is None,
{
    let none = Seq::<char>::empty();
    let parts = split(none, '\0');
    assert(parts =~= seq![none]);
    assert(parts.drop_last() =~= Seq::<Seq<char>>::empty());
    assert(last_value(parts.drop_last(), key) is None);
}

/// Nul characters around a message change nothing.
pub proof fn padding_is_ignored(msg: Seq<char>, key: Seq<char>)
    ensures
        message_value(trim(msg, '\0'), key) == message_value(msg, key),
    decreases msg.len(),
{
    let none = Seq::<char>::empty();
    empty_message(key);
    if msg.len() > 0 && msg[0] == '\0' {
        later_field_wins(none, msg.skip(1), key);
        assert(msg =~= none.push('\0') + msg.skip(1));
        padding_is_ignored(msg.skip(1), key);
    } else if msg.len() > 0 && msg.last() == '\0' {
        later_field_wins(msg.drop_last(), none, key);
        assert(msg =~= msg.drop_last().push('\0') + none);
        padding_is_ignored(msg.drop_last(), key);
    }
}

/// A message of one field.
pub open spec fn field_text(key: Seq<char>, value: Seq<char>) -> Seq<char> {
    key.push('=') + value
}

/// A field is read back: its key has its value and no other key has one.
pub proof fn field_reads_back(key: Seq<char>, value: Seq<char>, other: Seq<char>)
    requires
        !key.contains('='),
        !key.contains('\0'),
        !value.contains('\0'),
    ensures
        message_value(field_text(key, value), key) == Some(value),
        other != key ==> message_value(field_text(key, value), other) is None,
{
    let s = field_text(key, value);
    assert forall|j: int| 0 <= j < s.len() implies s[j] != '\0' by {
        if j < key.len() {
            assert(key.contains(key[j]));
        } else if j > key.len() {
            assert(s[j] == value[j - key.len() - 1]);
            assert(value.contains(value[j - key.len() - 1]));
        }
    }
    text::find_unique(s, '\0', s.len() as int);
    assert(split(s, '\0') =~= seq![s]);
    assert forall|j: int| 0 <= j < key.len() implies s[j] != '=' by {
        assert(key.contains(key[j]));
    }
    text::find_unique(s, '=', key.len() as int);
    assert(key_of(s) =~= key);
    assert(value_of(s) =~= value);
    assert(seq![s].drop_last() =~= Seq::<Seq<char>>::empty());
    assert(last_value(seq![s].drop_last(), other) is None);
}

/// A text without an equals sign is no field: it has no value for any key.
pub proof fn text_without_equals_sign_says_nothing(s: Seq<char>, key: Seq<char>)
    requires
        !s.contains('='),
        !s.contains('\0'),
    ensures
        message_value(s, key) is None,
{
    assert forall|j: int| 0 <= j < s.len() implies s[j] != '=' && s[j] != '\0' by {
        assert(s.contains(s[j]));
    }
    text::find_unique(s, '=', s.len() as int);
    text::find_unique(s, '\0', s.len() as int);
    assert(split(s, '\0') =~= seq![s]);
    assert(seq![s].drop_last() =~= Seq::<Seq<char>>::empty());
    assert(last_value(seq![s].drop_last(), key) is None);
}

/// A text without the separator is its only part.
pub proof fn text_without_separator_is_one_part(s: Seq<char>, c: char)
    requires
        !s.contains(c),
    ensures
        split(s, c) == seq![s],
{
    assert forall|j: int| 0 <= j < s.len() implies s[j] != c by {
        assert(s.contains(s[j]));
    }
    text::find_unique(s, c, s.len() as int);
}

} // verus!
