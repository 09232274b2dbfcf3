//! The wire form of [`LoginResult`] at the presentation boundary:
//! `{"success":<bool>,"message":<string or null>}`, with `"` and `\`
//! escaped by a backslash inside the message. Encoding and decoding are
//! verified against one pair of spec functions, and decoding inverts
//! encoding for every result value.

use vstd::prelude::*;

use crate::numeral::chars_to_string;
use crate::LoginResult;

verus! {

/// The wire form of one message character.
pub open spec fn escaped_char(c: char) -> Seq<char> {
    if c == '"' || c == '\\' {
        seq!['\\', c]
    } else {
        seq![c]
    }
}

/// The wire form of a message.
pub open spec fn escape_text(s: Seq<char>) -> Seq<char>
    decreases s.len(),
{
    if s.len() == 0 {
        Seq::empty()
    } else {
        escaped_char(s[0]) + escape_text(s.drop_first())
    }
}

/// The wire form of a whole result record.
pub open spec fn encode_view(success: bool, message: Option<Seq<char>>) -> Seq<char> {
    "{\"success\":"@ + (if success {
        "true"@
    } else {
        "false"@
    }) + ",\"message\":"@ + (match message {
        None => "null"@ + seq!['}'],
        Some(m) => seq!['"'] + escape_text(m) + seq!['"', '}'],
    })
}

/// Strips `p` from the front of `w`, or fails.
pub open spec fn strip_prefix_view(w: Seq<char>, p: Seq<char>) -> Option<Seq<char>> {
    if p.len() <= w.len() && w.subrange(0, p.len() as int) == p {
        Some(w.subrange(p.len() as int, w.len() as int))
    } else {
        None
    }
}

/// Reads an escaped message up to its closing quote: the message read and
/// what follows the quote, or failure on a bad escape or a missing quote.
pub open spec fn parse_message_body(w: Seq<char>) -> Option<(Seq<char>, Seq<char>)>
    decreases w.len(),
{
    if w.len() == 0 {
        None
    } else if w[0] == '"' {
        Some((Seq::empty(), w.drop_first()))
    } else if w[0] == '\\' {
        if w.len() >= 2 && (w[1] == '"' || w[1] == '\\') {
            match parse_message_body(w.subrange(2, w.len() as int)) {
                Some(p) => Some((seq![w[1]] + p.0, p.1)),
                None => None,
            }
        } else {
            None
        }
    } else {
        match parse_message_body(w.drop_first()) {
            Some(p) => Some((seq![w[0]] + p.0, p.1)),
            None => None,
        }
    }
}

/// What a wire string means, if anything.
pub open spec fn decode_view(w: Seq<char>) -> Option<(bool, Option<Seq<char>>)> {
    match strip_prefix_view(w, "{\"success\":"@) {
        None => None,
        Some(w1) => {
            let flag = if strip_prefix_view(w1, "true"@) is Some {
                Some((true, strip_prefix_view(w1, "true"@)->Some_0))
            } else if strip_prefix_view(w1, "false"@) is Some {
                Some((false, strip_prefix_view(w1, "false"@)->Some_0))
            } else {
                None
            };
            match flag {
                None => None,
                Some((success, w2)) => match strip_prefix_view(w2, ",\"message\":"@) {
                    None => None,
                    Some(w3) => match strip_prefix_view(w3, "null"@) {
                        Some(w4) => if w4 == seq!['}'] {
                            Some((success, None))
                        } else {
                            None
                        },
                        None => if w3.len() > 0 && w3[0] == '"' {
                            match parse_message_body(w3.drop_first()) {
                                Some(p) => if p.1 == seq!['}'] {
                                    Some((success, Some(p.0)))
                                } else {
                                    None
                                },
                                None => None,
                            }
                        } else {
                            None
                        },
                    },
                },
            }
        },
    }
}

/// Escaping distributes over concatenation.
proof fn lemma_escape_text_add(a: Seq<char>, b: Seq<char>)
    ensures
        escape_text(a + b) == escape_text(a) + escape_text(b),
    decreases a.len(),
{
    if a.len() == 0 {
        assert(a + b =~= b);
        assert(escape_text(a) + escape_text(b) =~= escape_text(b));
    } else {
        lemma_escape_text_add(a.drop_first(), b);
        assert((a + b).drop_first() =~= a.drop_first() + b);
        assert(escaped_char(a[0]) + (escape_text(a.drop_first()) + escape_text(b)) =~= (
        escaped_char(a[0]) + escape_text(a.drop_first())) + escape_text(b));
    }
}

fn push_str_chars(out: &mut Vec<char>, s: &str)
    ensures
        final(out)@ == old(out)@ + s@,
{
    let n = s.unicode_len();
    let mut j: usize = 0;
    while j < n
        invariant
            j <= n,
            n == s@.len(),
            out@ == old(out)@ + s@.subrange(0, j as int),
        decreases n - j,
    {
        let c = s.get_char(j);
        out.push(c);
        j += 1;
        assert(out@ =~= old(out)@ + s@.subrange(0, j as int));
    }
    assert(s@.subrange(0, s@.len() as int) =~= s@);
}

fn push_escaped(out: &mut Vec<char>, s: &str)
    ensures
        final(out)@ == old(out)@ + escape_text(s@),
{
    let n = s.unicode_len();
    let mut j: usize = 0;
    while j < n
        invariant
            j <= n,
            n == s@.len(),
            out@ == old(out)@ + escape_text(s@.subrange(0, j as int)),
        decreases n - j,
    {
        let c = s.get_char(j);
        if c == '"' || c == '\\' {
            out.push('\\');
            out.push(c);
        } else {
            out.push(c);
        }
        proof {
            lemma_escape_text_add(s@.subrange(0, j as int), seq![s@[j as int]]);
            assert(s@.subrange(0, j + 1 as int) =~= s@.subrange(0, j as int) + seq![
                s@[j as int],
            ]);
            assert(seq![s@[j as int]].drop_first() =~= Seq::<char>::empty());
            assert(escape_text(seq![s@[j as int]]) =~= escaped_char(s@[j as int]) + escape_text(
                Seq::<char>::empty(),
            ));
            assert(escape_text(seq![s@[j as int]]) =~= escaped_char(s@[j as int]));
            assert(out@ =~= old(out)@ + escape_text(s@.subrange(0, j + 1 as int)));
        }
        j += 1;
    }
    assert(s@.subrange(0, s@.len() as int) =~= s@);
}

/// Encodes a result record for the presentation boundary.
pub fn encode(r: &LoginResult) -> (w: String)
    ensures
        w@ == encode_view(r@.0, r@.1),
{
    let mut out: Vec<char> = Vec::new();
    push_str_chars(&mut out, "{\"success\":");
    if r.success {
        push_str_chars(&mut out, "true");
    } else {
        push_str_chars(&mut out, "false");
    }
    push_str_chars(&mut out, ",\"message\":");
    match &r.message {
        None => {
            push_str_chars(&mut out, "null");
            out.push('}');
        },
        Some(m) => {
            out.push('"');
            push_escaped(&mut out, m.as_str());
            out.push('"');
            out.push('}');
        },
    }
    proof {
        assert(out@ =~= encode_view(r@.0, r@.1));
    }
    chars_to_string(&out)
}

/// Whether `p` occurs in `w` at position `i`.
fn match_at(w: &str, i: usize, p: &str) -> (b: bool)
    ensures
        b <==> (i + p@.len() <= w@.len() && w@.subrange(i as int, i + p@.len()) == p@),
{
    let w_len = w.unicode_len();
    let p_len = p.unicode_len();
    if p_len > w_len || i > w_len - p_len {
        return false;
    }
    let mut j: usize = 0;
    while j < p_len
        invariant
            j <= p_len,
            p_len == p@.len(),
            w_len == w@.len(),
            i + p_len <= w_len,
            forall|k: int| 0 <= k < j ==> w@[i + k] == p@[k],
        decreases p_len - j,
    {
        if w.get_char(i + j) != p.get_char(j) {
            proof {
                assert(w@.subrange(i as int, i + p@.len())[j as int] == w@[i + j]);
            }
            return false;
        }
        j += 1;
    }
    proof {
        assert(w@.subrange(i as int, i + p@.len()) =~= p@);
    }
    true
}

/// `strip_prefix_view` at a position inside `w`.
proof fn lemma_strip_at(w: Seq<char>, i: int, p: Seq<char>)
    requires
        0 <= i <= w.len(),
    ensures
        strip_prefix_view(w.subrange(i, w.len() as int), p) == (if i + p.len() <= w.len()
            && w.subrange(i, i + p.len() as int) == p {
            Some(w.subrange(i + p.len(), w.len() as int))
        } else {
            None
        }),
{
    let tail = w.subrange(i, w.len() as int);
    if p.len() <= tail.len() {
        assert(tail.subrange(0, p.len() as int) =~= w.subrange(i, i + p.len() as int));
        if tail.subrange(0, p.len() as int) == p {
            assert(tail.subrange(p.len() as int, tail.len() as int) =~= w.subrange(
                i + p.len(),
                w.len() as int,
            ));
        }
    }
}

/// Reads the message body starting at `start`, which must lie just past
/// the opening quote; returns the unescaped content and the position just
/// past the closing quote.
fn parse_body_from(w: &str, start: usize) -> (r: Option<(Vec<char>, usize)>)
    requires
        start <= w@.len(),
    ensures
        match r {
            Some(p) => start <= p.1 <= w@.len() && parse_message_body(
                w@.subrange(start as int, w@.len() as int),
            ) == Some((p.0@, w@.subrange(p.1 as int, w@.len() as int))),
            None => parse_message_body(w@.subrange(start as int, w@.len() as int)) is None,
        },
{
    let w_len = w.unicode_len();
    let mut i: usize = start;
    let mut acc: Vec<char> = Vec::new();
    while i < w_len
        invariant
            start <= i <= w_len,
            w_len == w@.len(),
            parse_message_body(w@.subrange(start as int, w@.len() as int)) == (match parse_message_body(
                w@.subrange(i as int, w@.len() as int),
            ) {
                Some(p) => Some((acc@ + p.0, p.1)),
                None => None::<(Seq<char>, Seq<char>)>,
            }),
        decreases w_len - i,
    {
        let ghost here = w@.subrange(i as int, w@.len() as int);
        proof {
            assert(here.len() > 0);
            assert(here[0] == w@[i as int]);
        }
        let c = w.get_char(i);
        if c == '"' {
            proof {
                assert(here.drop_first() =~= w@.subrange(i + 1, w@.len() as int));
                assert(parse_message_body(here) == Some(
                    (Seq::<char>::empty(), w@.subrange(i + 1, w@.len() as int)),
                ));
                assert(acc@ + Seq::<char>::empty() =~= acc@);
            }
            return Some((acc, i + 1));
        } else if c == '\\' {
            if i + 1 == w_len {
                proof {
                    assert(parse_message_body(here) is None);
                }
                return None;
            }
            let c2 = w.get_char(i + 1);
            proof {
                assert(here[1] == w@[i + 1]);
            }
            if c2 == '"' || c2 == '\\' {
                acc.push(c2);
                proof {
                    assert(here.subrange(2, here.len() as int) =~= w@.subrange(
                        i + 2,
                        w@.len() as int,
                    ));
                    assert(forall|p: (Seq<char>, Seq<char>)|
                        acc@ + p.0 =~= (acc@.drop_last() + seq![w@[i + 1]]) + p.0);
                }
                i += 2;
            } else {
                proof {
                    assert(parse_message_body(here) is None);
                }
                return None;
            }
        } else {
            acc.push(c);
            proof {
                assert(here.drop_first() =~= w@.subrange(i + 1, w@.len() as int));
                assert(forall|p: (Seq<char>, Seq<char>)|
                    acc@ + p.0 =~= (acc@.drop_last() + seq![w@[i as int]]) + p.0);
            }
            i += 1;
        }
    }
    proof {
        assert(w@.subrange(i as int, w@.len() as int).len() == 0);
    }
    None
}

/// Decodes a wire string back into a result record, or fails on anything
/// the encoder would not produce.
pub fn decode(w: &str) -> (r: Option<LoginResult>)
    ensures
        decode_view(w@) matches Some(p) ==> (r matches Some(lr) && lr@ == p),
        decode_view(w@) is None ==> r is None,
{
    let w_len = w.unicode_len();
    if !match_at(w, 0, "{\"success\":") {
        proof {
            assert(w@.subrange(0, w@.len() as int) =~= w@);
            lemma_strip_at(w@, 0, "{\"success\":"@);
        }
        return None;
    }
    let mut i: usize = "{\"success\":".unicode_len();
    proof {
        assert(w@.subrange(0, w@.len() as int) =~= w@);
        lemma_strip_at(w@, 0, "{\"success\":"@);
    }
    let ghost w1 = w@.subrange(i as int, w@.len() as int);
    let success: bool;
    if match_at(w, i, "true") {
        success = true;
        proof {
            lemma_strip_at(w@, i as int, "true"@);
        }
        i += "true".unicode_len();
    } else if match_at(w, i, "false") {
        success = false;
        proof {
            lemma_strip_at(w@, i as int, "true"@);
            lemma_strip_at(w@, i as int, "false"@);
        }
        i += "false".unicode_len();
    } else {
        proof {
            lemma_strip_at(w@, i as int, "true"@);
            lemma_strip_at(w@, i as int, "false"@);
        }
        return None;
    }
    let ghost w2 = w@.subrange(i as int, w@.len() as int);
    if !match_at(w, i, ",\"message\":") {
        proof {
            lemma_strip_at(w@, i as int, ",\"message\":"@);
        }
        return None;
    }
    proof {
        lemma_strip_at(w@, i as int, ",\"message\":"@);
    }
    i += ",\"message\":".unicode_len();
    let ghost w3 = w@.subrange(i as int, w@.len() as int);
    if match_at(w, i, "null") {
        proof {
            lemma_strip_at(w@, i as int, "null"@);
        }
        i += "null".unicode_len();
        let ghost w4 = w@.subrange(i as int, w@.len() as int);
        if i < w_len && w_len - i == 1 && w.get_char(i) == '}' {
            proof {
                assert(w4 =~= seq!['}']);
            }
            Some(LoginResult { success, message: None })
        } else {
            proof {
                assert(w4 != seq!['}']) by {
                    if w4 == seq!['}'] {
                        assert(w4.len() == 1);
                        assert(w4[0] == w@[i as int]);
                    }
                }
            }
            None
        }
    } else {
        proof {
            lemma_strip_at(w@, i as int, "null"@);
        }
        if i < w_len && w.get_char(i) == '"' {
            proof {
                assert(w3[0] == w@[i as int]);
                assert(w3.drop_first() =~= w@.subrange(i + 1, w@.len() as int));
            }
            match parse_body_from(w, i + 1) {
                None => None,
                Some((content, end)) => {
                    let ghost rest = w@.subrange(end as int, w@.len() as int);
                    if end < w_len && w_len - end == 1 && w.get_char(end) == '}' {
                        proof {
                            assert(rest =~= seq!['}']);
                        }
                        let message = chars_to_string(&content);
                        Some(LoginResult { success, message: Some(message) })
                    } else {
                        proof {
                            assert(rest != seq!['}']) by {
                                if rest == seq!['}'] {
                                    assert(rest.len() == 1);
                                    assert(rest[0] == w@[end as int]);
                                }
                            }
                        }
                        None
                    }
                },
            }
        } else {
            proof {
                if w3.len() > 0 {
                    assert(w3[0] == w@[i as int]);
                }
            }
            None
        }
    }
}

/// Reading an escaped message finds exactly the message and leaves
/// exactly what follows the closing quote.
proof fn lemma_parse_escaped(m: Seq<char>, rest: Seq<char>)
    ensures
        parse_message_body(escape_text(m) + seq!['"'] + rest) == Some((m, rest)),
    decreases m.len(),
{
    let w = escape_text(m) + seq!['"'] + rest;
    if m.len() == 0 {
        assert(w =~= seq!['"'] + rest);
        assert(w[0] == '"');
        assert(w.drop_first() =~= rest);
    } else {
        lemma_parse_escaped(m.drop_first(), rest);
        let w_tail = escape_text(m.drop_first()) + seq!['"'] + rest;
        if m[0] == '"' || m[0] == '\\' {
            assert(escaped_char(m[0]) =~= seq!['\\', m[0]]);
            assert(w =~= seq!['\\', m[0]] + w_tail);
            assert(w[0] == '\\');
            assert(w[1] == m[0]);
            assert(w.len() >= 2);
            assert(w.subrange(2, w.len() as int) =~= w_tail);
            assert(seq![w[1]] + m.drop_first() =~= m);
        } else {
            assert(escaped_char(m[0]) =~= seq![m[0]]);
            assert(w =~= seq![m[0]] + w_tail);
            assert(w[0] == m[0]);
            assert(w[0] != '"' && w[0] != '\\');
            assert(w.drop_first() =~= w_tail);
            assert(seq![w[0]] + m.drop_first() =~= m);
        }
    }
}

/// Stripping a prefix that is there succeeds and leaves the rest.
proof fn lemma_strip_prefix(p: Seq<char>, rest: Seq<char>)
    ensures
        strip_prefix_view(p + rest, p) == Some(rest),
{
    let w = p + rest;
    assert(w.subrange(0, p.len() as int) =~= p);
    assert(w.subrange(p.len() as int, w.len() as int) =~= rest);
}

/// Decoding inverts encoding: the boundary reads back exactly the
/// `success`/`message` pair that was sent, for every result record,
/// a null message included.
pub proof fn lemma_wire_round_trip(success: bool, message: Option<Seq<char>>)
    ensures
        decode_view(encode_view(success, message)) == Some((success, message)),
{
    reveal_strlit("true");
    reveal_strlit("false");
    reveal_strlit("null");
    let b = if success {
        "true"@
    } else {
        "false"@
    };
    let m_part = match message {
        None => "null"@ + seq!['}'],
        Some(m) => seq!['"'] + escape_text(m) + seq!['"', '}'],
    };
    let w = encode_view(success, message);
    let rest1 = b + (",\"message\":"@ + m_part);
    assert(w =~= "{\"success\":"@ + rest1);
    lemma_strip_prefix("{\"success\":"@, rest1);
    let rest2 = ",\"message\":"@ + m_part;
    assert(rest1 =~= b + rest2);
    lemma_strip_prefix(b, rest2);
    if success {
        assert(strip_prefix_view(rest1, "true"@) == Some(rest2));
    } else {
        assert(strip_prefix_view(rest1, "true"@) is None) by {
            if strip_prefix_view(rest1, "true"@) is Some {
                assert(rest1.subrange(0, 4)[0] == rest1[0]);
                assert(rest1[0] == 'f');
            }
        }
        assert(strip_prefix_view(rest1, "false"@) == Some(rest2));
    }
    lemma_strip_prefix(",\"message\":"@, m_part);
    match message {
        None => {
            lemma_strip_prefix("null"@, seq!['}']);
            assert(m_part =~= "null"@ + seq!['}']);
        },
        Some(m) => {
            assert(strip_prefix_view(m_part, "null"@) is None) by {
                if strip_prefix_view(m_part, "null"@) is Some {
                    assert(m_part.subrange(0, 4)[0] == m_part[0]);
                    assert(m_part[0] == '"');
                }
            }
            assert(m_part.len() > 0 && m_part[0] == '"');
            assert(m_part.drop_first() =~= escape_text(m) + seq!['"'] + seq!['}']);
            lemma_parse_escaped(m, seq!['}']);
        },
    }
}

} // verus!
