//! Exact JSON text construction for the few object shapes ACME sends.

use vstd::prelude::*;
use vstd::string::StrSliceExecFns;
use crate::text::push_char;

verus! {

/// The lower-case hex digit for a value below 16.
pub open spec fn hex_char(v: u8) -> char
    recommends
        v < 16,
{
    if v < 10 {
        (((48 + v) as u8) as char)
    } else {
        (((87 + v) as u8) as char)
    }
}

/// How one character appears inside a JSON string literal: quote and
/// backslash get a backslash escape, control characters a `\u00..` escape,
/// everything else stands for itself.
pub open spec fn esc_char(c: char) -> Seq<char> {
    if c == '"' {
        seq!['\\', '"']
    } else if c == '\\' {
        seq!['\\', '\\']
    } else if (c as u32) < 0x20 {
        seq!['\\', 'u', '0', '0', hex_char(((c as u32) >> 4) as u8), hex_char(((c as u32) & 0xf) as u8)]
    } else {
        seq![c]
    }
}

/// A character sequence with every character escaped for JSON.
pub open spec fn json_escaped(s: Seq<char>) -> Seq<char>
    decreases s.len(),
{
    if s.len() == 0 {
        Seq::empty()
    } else {
        esc_char(s[0]) + json_escaped(s.skip(1))
    }
}

/// A JSON string literal: quotes around the escaped characters.
pub open spec fn json_str(s: Seq<char>) -> Seq<char> {
    seq!['"'] + json_escaped(s) + seq!['"']
}

/// Append the escaped characters of `s` (no quotes) to `out`.
pub fn push_escaped(out: &mut String, s: &str)
    ensures
        final(out)@ == old(out)@ + json_escaped(s@),
{
    let n = s.unicode_len();
    let mut i: usize = 0;
    proof {
        assert(s@.skip(0) =~= s@);
        assert(old(out)@ + json_escaped(s@) == old(out)@ + json_escaped(s@.skip(0)));
    }
    while i < n
        invariant
            n == s@.len(),
            0 <= i <= n,
            out@ + json_escaped(s@.skip(i as int)) == old(out)@ + json_escaped(s@),
        decreases n - i,
    {
        let c = s.get_char(i);
        proof {
            let tail = s@.skip(i as int);
            assert(tail[0] == c);
            assert(tail.skip(1) =~= s@.skip(i + 1));
            assert(json_escaped(tail) == esc_char(c) + json_escaped(s@.skip(i + 1)));
        }
        if c == '"' {
            push_char(out, '\\');
            push_char(out, '"');
        } else if c == '\\' {
            push_char(out, '\\');
            push_char(out, '\\');
        } else if (c as u32) < 0x20 {
            let u = c as u32;
            push_char(out, '\\');
            push_char(out, 'u');
            push_char(out, '0');
            push_char(out, '0');
            let hi = (u >> 4) as u8;
            let lo = (u & 0xf) as u8;
            proof {
                assert(u < 0x20 ==> (u >> 4) < 16 && (u & 0xf) < 16) by (bit_vector);
            }
            push_char(out, if hi < 10 { (48 + hi) as char } else { (87 + hi) as char });
            push_char(out, if lo < 10 { (48 + lo) as char } else { (87 + lo) as char });
        } else {
            push_char(out, c);
        }
        proof {
            assert(out@ + json_escaped(s@.skip(i + 1)) =~= old(out)@ + json_escaped(s@));
        }
        i = i + 1;
    }
    proof {
        assert(s@.skip(n as int) =~= Seq::<char>::empty());
        assert(out@ =~= old(out)@ + json_escaped(s@));
    }
}

/// Append the JSON string literal for `s` to `out`.
pub fn push_json_str(out: &mut String, s: &str)
    ensures
        final(out)@ == old(out)@ + json_str(s@),
{
    push_char(out, '"');
    push_escaped(out, s);
    push_char(out, '"');
    proof {
        assert(out@ =~= old(out)@ + json_str(s@));
    }
}

/// The members of a JSON array of string literals, comma-separated.
pub open spec fn json_str_list(items: Seq<Seq<char>>) -> Seq<char>
    decreases items.len(),
{
    if items.len() == 0 {
        Seq::empty()
    } else if items.len() == 1 {
        json_str(items[0])
    } else {
        json_str(items[0]) + seq![','] + json_str_list(items.skip(1))
    }
}

/// Appending one member to a list adds a separator exactly when the list
/// already has members.
proof fn lemma_json_str_list_snoc(items: Seq<Seq<char>>, x: Seq<char>)
    ensures
        json_str_list(items.push(x)) == if items.len() == 0 {
            json_str(x)
        } else {
            json_str_list(items) + seq![','] + json_str(x)
        },
    decreases items.len(),
{
    let p = items.push(x);
    if items.len() == 0 {
        assert(p.len() == 1 && p[0] == x);
    } else if items.len() == 1 {
        assert(p.len() == 2 && p[0] == items[0]);
        assert(p.skip(1) =~= seq![x]);
        assert(json_str_list(seq![x]) == json_str(x));
    } else {
        assert(p[0] == items[0]);
        assert(p.skip(1) =~= items.skip(1).push(x));
        lemma_json_str_list_snoc(items.skip(1), x);
        assert(json_str_list(p) == json_str(p[0]) + seq![','] + json_str_list(items.skip(1).push(x)));
        assert(json_str(items[0]) + seq![','] + (json_str_list(items.skip(1)) + seq![','] + json_str(x))
            =~= (json_str(items[0]) + seq![','] + json_str_list(items.skip(1))) + seq![','] + json_str(x));
    }
}

/// Append the comma-separated string literals of `items` to `out`.
pub fn push_json_str_list(out: &mut String, items: &Vec<String>)
    ensures
        final(out)@ == old(out)@ + json_str_list(items.deep_view()),
{
    let n = items.len();
    let mut i: usize = 0;
    proof {
        assert(items.deep_view().len() == n);
        assert(items.deep_view().take(0) =~= Seq::<Seq<char>>::empty());
        assert(old(out)@ + Seq::<char>::empty() =~= old(out)@);
    }
    while i < n
        invariant
            n == items@.len(),
            items.deep_view().len() == n,
            0 <= i <= n,
            out@ == old(out)@ + json_str_list(items.deep_view().take(i as int)),
        decreases n - i,
    {
        if i > 0 {
            push_char(out, ',');
        }
        push_json_str(out, items[i].as_str());
        proof {
            let all = items.deep_view();
            assert(all[i as int] == items@[i as int]@);
            assert(all.take(i + 1) =~= all.take(i as int).push(all[i as int]));
            lemma_json_str_list_snoc(all.take(i as int), all[i as int]);
            assert(out@ =~= old(out)@ + json_str_list(all.take(i + 1)));
        }
        i = i + 1;
    }
    proof {
        assert(items.deep_view().take(n as int) =~= items.deep_view());
    }
}

} // verus!
