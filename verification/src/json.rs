//! JSON encoding of message payloads: string escaping and the framing of
//! a message list as a JSON array of one-field objects.

use vstd::prelude::*;
use crate::types::Message;
use crate::text::{contains_part, dec_chars, digit_char, int_chars, lemma_part_concat_left,
    lemma_part_concat_right, lemma_part_refl};

verus! {

/// The hexadecimal digit character for a value below sixteen.
pub open spec fn hex_char(d: nat) -> char {
    if d < 10 {
        digit_char(d)
    } else if d == 10 {
        'a'
    } else if d == 11 {
        'b'
    } else if d == 12 {
        'c'
    } else if d == 13 {
        'd'
    } else if d == 14 {
        'e'
    } else {
        'f'
    }
}

/// The JSON escape of one character: quote and backslash get a backslash
/// escape, control characters a `\u00XX` escape, everything else stands
/// as itself.
pub open spec fn esc_char(c: char) -> Seq<char> {
    if c == '"' {
        seq!['\\', '"']
    } else if c == '\\' {
        seq!['\\', '\\']
    } else if (c as u32) < 32 {
        seq!['\\', 'u', '0', '0', hex_char((c as u32 / 16) as nat), hex_char((c as u32 % 16) as nat)]
    } else {
        seq![c]
    }
}

/// The JSON escape of a whole character sequence.
pub open spec fn json_escape(s: Seq<char>) -> Seq<char>
    decreases s.len(),
{
    if s.len() == 0 {
        Seq::empty()
    } else {
        json_escape(s.drop_last()) + esc_char(s.last())
    }
}

/// The JSON object for one message: `{"message": "<escaped text>"}`.
pub open spec fn message_json(m: Seq<char>) -> Seq<char> {
    ("{\"message\": \"")@ + json_escape(m) + ("\"}")@
}

/// The comma-joined JSON objects of a message list, without the brackets.
pub open spec fn messages_inner(ms: Seq<Seq<char>>) -> Seq<char>
    decreases ms.len(),
{
    if ms.len() == 0 {
        Seq::empty()
    } else if ms.len() == 1 {
        message_json(ms[0])
    } else {
        messages_inner(ms.drop_last()) + (",")@ + message_json(ms.last())
    }
}

/// The JSON array for a message list: `[` objects `]`.
pub open spec fn messages_json(ms: Seq<Seq<char>>) -> Seq<char> {
    ("[")@ + messages_inner(ms) + ("]")@
}

/// The views of the messages in a sequence.
pub open spec fn message_views(ms: Seq<Message>) -> Seq<Seq<char>> {
    ms.map_values(|m: Message| m@)
}

/// A character the JSON escape leaves as itself.
pub open spec fn plain_char(c: char) -> bool {
    c != '"' && c != '\\' && (c as u32) >= 32
}

/// The JSON escape of a text of plain characters is the text itself.
pub proof fn lemma_escape_plain(s: Seq<char>)
    requires
        forall|i: int| 0 <= i < s.len() ==> plain_char(#[trigger] s[i]),
    ensures
        json_escape(s) == s,
    decreases s.len(),
{
    if s.len() == 0 {
        assert(json_escape(s) =~= s);
    } else {
        lemma_escape_plain(s.drop_last());
        assert(plain_char(s.last()));
        assert(json_escape(s) =~= s);
    }
}

proof fn lemma_dec_chars_plain(n: nat)
    ensures
        forall|i: int| 0 <= i < dec_chars(n).len() ==> plain_char(#[trigger] dec_chars(n)[i]),
    decreases n,
{
    if n < 10 {
        assert(plain_char(digit_char(n)));
    } else {
        lemma_dec_chars_plain(n / 10);
        assert(plain_char(digit_char(n % 10)));
        assert forall|i: int| 0 <= i < dec_chars(n).len() implies plain_char(
            #[trigger] dec_chars(n)[i],
        ) by {
            if i < dec_chars(n / 10).len() {
                assert(dec_chars(n)[i] == dec_chars(n / 10)[i]);
            } else {
                assert(dec_chars(n)[i] == digit_char(n % 10));
            }
        }
    }
}

/// A rendered integer consists of a sign and digits, all plain, so its
/// JSON escape is itself.
pub proof fn lemma_int_chars_plain(n: int)
    ensures
        json_escape(int_chars(n)) == int_chars(n),
{
    if n < 0 {
        lemma_dec_chars_plain((-n) as nat);
        assert(plain_char('-'));
        assert forall|i: int| 0 <= i < int_chars(n).len() implies plain_char(
            #[trigger] int_chars(n)[i],
        ) by {
            if i == 0 {
                assert(int_chars(n)[0] == '-');
            } else {
                assert(int_chars(n)[i] == dec_chars((-n) as nat)[i - 1]);
            }
        }
    } else {
        lemma_dec_chars_plain(n as nat);
    }
    lemma_escape_plain(int_chars(n));
}

/// The JSON escape works character by character, so it distributes over
/// concatenation.
pub proof fn lemma_escape_concat(a: Seq<char>, b: Seq<char>)
    ensures
        json_escape(a + b) == json_escape(a) + json_escape(b),
    decreases b.len(),
{
    if b.len() == 0 {
        assert(a + b =~= a);
        assert(json_escape(a) + json_escape(b) =~= json_escape(a));
    } else {
        assert((a + b).drop_last() =~= a + b.drop_last());
        assert((a + b).last() == b.last());
        lemma_escape_concat(a, b.drop_last());
        assert(json_escape(a + b) =~= json_escape(a) + json_escape(b));
    }
}

/// Whatever occurs contiguously inside a text still occurs, escaped,
/// inside the escaped text.
pub proof fn lemma_escape_preserves_part(hay: Seq<char>, part: Seq<char>)
    requires
        contains_part(hay, part),
    ensures
        contains_part(json_escape(hay), json_escape(part)),
{
    let k = choose|k: int|
        0 <= k && k + part.len() <= hay.len()
            && #[trigger] hay.subrange(k, k + part.len() as int) == part;
    let before = hay.subrange(0, k);
    let after = hay.subrange(k + part.len() as int, hay.len() as int);
    assert(hay =~= before + part + after);
    lemma_escape_concat(before + part, after);
    lemma_escape_concat(before, part);
    lemma_part_refl(json_escape(part));
    lemma_part_concat_right(json_escape(before), json_escape(part), json_escape(part));
    lemma_part_concat_left(
        json_escape(before) + json_escape(part),
        json_escape(after),
        json_escape(part),
    );
    assert(json_escape(hay) == (json_escape(before) + json_escape(part)) + json_escape(after));
}

proof fn lemma_escape_step(s: Seq<char>, i: int)
    requires
        0 <= i < s.len(),
    ensures
        json_escape(s.subrange(0, i + 1)) == json_escape(s.subrange(0, i)) + esc_char(s[i]),
{
    let pre = s.subrange(0, i + 1);
    assert(pre.drop_last() =~= s.subrange(0, i));
    assert(pre.last() == s[i]);
}

fn push_hex(out: &mut String, d: u32)
    requires
        d < 16,
    ensures
        final(out)@ == old(out)@ + seq![hex_char(d as nat)],
{
    let c: char = if d == 0 {
        '0'
    } else if d == 1 {
        '1'
    } else if d == 2 {
        '2'
    } else if d == 3 {
        '3'
    } else if d == 4 {
        '4'
    } else if d == 5 {
        '5'
    } else if d == 6 {
        '6'
    } else if d == 7 {
        '7'
    } else if d == 8 {
        '8'
    } else if d == 9 {
        '9'
    } else if d == 10 {
        'a'
    } else if d == 11 {
        'b'
    } else if d == 12 {
        'c'
    } else if d == 13 {
        'd'
    } else if d == 14 {
        'e'
    } else {
        'f'
    };
    out.push(c);
    proof {
        assert(out@ =~= old(out)@ + seq![hex_char(d as nat)]);
    }
}

fn append_escaped_char(out: &mut String, c: char)
    ensures
        final(out)@ == old(out)@ + esc_char(c),
{
    if c == '"' {
        out.push('\\');
        out.push('"');
        proof {
            assert(out@ =~= old(out)@ + esc_char(c));
        }
    } else if c == '\\' {
        out.push('\\');
        out.push('\\');
        proof {
            assert(out@ =~= old(out)@ + esc_char(c));
        }
    } else if (c as u32) < 32 {
        let v: u32 = c as u32;
        out.push('\\');
        out.push('u');
        out.push('0');
        out.push('0');
        push_hex(out, v / 16);
        push_hex(out, v % 16);
        proof {
            assert(out@ =~= old(out)@ + esc_char(c));
        }
    } else {
        out.push(c);
        proof {
            assert(out@ =~= old(out)@ + esc_char(c));
        }
    }
}

/// Appends the JSON escape of `s` to `out`.
pub fn append_json_escaped(out: &mut String, s: &str)
    ensures
        final(out)@ == old(out)@ + json_escape(s@),
{
    let n = s.unicode_len();
    let mut i: usize = 0;
    proof {
        assert(s@.subrange(0, 0) =~= Seq::<char>::empty());
    }
    while i < n
        invariant
            n == s@.len(),
            i <= n,
            out@ == old(out)@ + json_escape(s@.subrange(0, i as int)),
        decreases n - i,
    {
        let c = s.get_char(i);
        append_escaped_char(out, c);
        proof {
            lemma_escape_step(s@, i as int);
            assert(out@ =~= old(out)@ + json_escape(s@.subrange(0, i + 1)));
        }
        i = i + 1;
    }
    proof {
        assert(s@.subrange(0, n as int) =~= s@);
    }
}

/// Appends the JSON object of one message to `out`.
fn append_message_json(out: &mut String, m: &Message)
    ensures
        final(out)@ == old(out)@ + message_json(m@),
{
    out.append("{\"message\": \"");
    append_json_escaped(out, m.message.as_str());
    out.append("\"}");
    proof {
        assert(out@ =~= old(out)@ + message_json(m@));
    }
}

proof fn lemma_inner_step(vs: Seq<Seq<char>>, i: int)
    requires
        0 <= i < vs.len(),
    ensures
        i == 0 ==> messages_inner(vs.subrange(0, 1)) == message_json(vs[0]),
        i > 0 ==> messages_inner(vs.subrange(0, i + 1)) == messages_inner(vs.subrange(0, i))
            + (",")@ + message_json(vs[i]),
{
    let pre = vs.subrange(0, i + 1);
    assert(pre.drop_last() =~= vs.subrange(0, i));
    assert(pre.last() == vs[i]);
}

/// Encodes a message list as a JSON array of `{"message": ...}` objects.
pub fn messages_body(ms: &Vec<Message>) -> (r: String)
    ensures
        r@ == messages_json(message_views(ms@)),
{
    let ghost vs = message_views(ms@);
    let mut out = String::new();
    out.append("[");
    let n = ms.len();
    let mut i: usize = 0;
    proof {
        assert(out@ =~= ("[")@ + messages_inner(vs.subrange(0, 0)));
    }
    while i < n
        invariant
            n == ms@.len(),
            vs == message_views(ms@),
            i <= n,
            out@ == ("[")@ + messages_inner(vs.subrange(0, i as int)),
        decreases n - i,
    {
        if i > 0 {
            out.append(",");
        }
        append_message_json(&mut out, &ms[i]);
        proof {
            lemma_inner_step(vs, i as int);
            assert(vs[i as int] == ms@[i as int]@);
            assert(out@ =~= ("[")@ + messages_inner(vs.subrange(0, i + 1)));
        }
        i = i + 1;
    }
    out.append("]");
    proof {
        assert(vs.subrange(0, n as int) =~= vs);
        assert(out@ =~= messages_json(vs));
    }
    out
}

} // verus!
