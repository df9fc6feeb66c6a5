//! Rendering a `JsonValue` tree as JSON text.
//!
//! The dispatcher returns every tool response as one text content block
//! holding the rendered response object.

use vstd::prelude::*;
use crate::json::{Json, JsonValue, jmodel, jmodel_seq, jmodel_entries, jheight, jheight_seq,
    jheight_entries, lemma_jmodel_seq, lemma_jmodel_entries, lemma_jheight_seq,
    lemma_jheight_entries};
use crate::text::{dec_int, int_to_string, push_char};

verus! {

/// The hexadecimal digit character for a value below sixteen.
pub open spec fn hex_digit(d: int) -> char {
    if d == 0 {
        '0'
    } else if d == 1 {
        '1'
    } else if d == 2 {
        '2'
    } else if d == 3 {
        '3'
    } else if d == 4 {
        '4'
    } else if d == 5 {
        '5'
    } else if d == 6 {
        '6'
    } else if d == 7 {
        '7'
    } else if d == 8 {
        '8'
    } else if d == 9 {
        '9'
    } else if d == 10 {
        'a'
    } else if d == 11 {
        'b'
    } else if d == 12 {
        'c'
    } else if d == 13 {
        'd'
    } else if d == 14 {
        'e'
    } else {
        'f'
    }
}

/// The escape of one character inside a JSON string literal: quotes and
/// backslashes get a backslash, the five control characters with short
/// escapes get those, any other control character becomes a `\u00XX`
/// escape, and everything else stands for itself.
pub open spec fn esc_char(c: char) -> Seq<char> {
    if c == '"' {
        seq!['\\', '"']
    } else if c == '\\' {
        seq!['\\', '\\']
    } else if c == '\u{8}' {
        seq!['\\', 'b']
    } else if c == '\t' {
        seq!['\\', 't']
    } else if c == '\n' {
        seq!['\\', 'n']
    } else if c == '\u{c}' {
        seq!['\\', 'f']
    } else if c == '\r' {
        seq!['\\', 'r']
    } else if (c as int) < 32 {
        seq!['\\', 'u', '0', '0', hex_digit((c as int) / 16), hex_digit((c as int) % 16)]
    } else {
        seq![c]
    }
}

/// The escape of a whole string, character by character.
pub open spec fn esc_seq(s: Seq<char>) -> Seq<char>
    decreases s,
{
    if s.len() == 0 {
        Seq::empty()
    } else {
        esc_char(s[0]) + esc_seq(s.drop_first())
    }
}

/// Escaping distributes over appending one character at the end.
pub proof fn lemma_esc_seq_snoc(s: Seq<char>, c: char)
    ensures
        esc_seq(s.push(c)) == esc_seq(s) + esc_char(c),
    decreases s,
{
    reveal_with_fuel(esc_seq, 3);
    if s.len() == 0 {
        assert(s.push(c)[0] == c);
        assert(s.push(c).drop_first() =~= Seq::<char>::empty());
        assert(esc_seq(s.push(c)) =~= esc_seq(s) + esc_char(c));
    } else {
        assert(s.push(c)[0] == s[0]);
        assert(s.push(c).drop_first() =~= s.drop_first().push(c));
        lemma_esc_seq_snoc(s.drop_first(), c);
        assert(esc_seq(s.push(c)) =~= esc_seq(s) + esc_char(c));
    }
}

/// The JSON text of a tree: objects and arrays in the order of their
/// entries, strings escaped, numbers in decimal.
pub open spec fn jtext(j: Json) -> Seq<char>
    decreases j,
{
    match j {
        Json::Null => "null"@,
        Json::Bool(b) => if b {
            "true"@
        } else {
            "false"@
        },
        Json::Int(i) => dec_int(i),
        Json::NumText(s) => s,
        Json::Str(s) => seq!['"'] + esc_seq(s) + seq!['"'],
        Json::Array(a) => seq!['['] + jtext_items(a) + seq![']'],
        Json::Object(o) => seq!['{'] + jtext_entries(o) + seq!['}'],
    }
}

/// The comma-separated texts of an array's elements.
pub open spec fn jtext_items(a: Seq<Json>) -> Seq<char>
    decreases a,
{
    if a.len() == 0 {
        Seq::empty()
    } else if a.len() == 1 {
        jtext(a[0])
    } else {
        jtext(a[0]) + seq![','] + jtext_items(a.drop_first())
    }
}

/// The comma-separated `"key":value` texts of an object's entries.
pub open spec fn jtext_entries(o: Seq<(Seq<char>, Json)>) -> Seq<char>
    decreases o,
{
    if o.len() == 0 {
        Seq::empty()
    } else if o.len() == 1 {
        seq!['"'] + esc_seq(o[0].0) + seq!['"', ':'] + jtext(o[0].1)
    } else {
        seq!['"'] + esc_seq(o[0].0) + seq!['"', ':'] + jtext(o[0].1) + seq![','] + jtext_entries(
            o.drop_first(),
        )
    }
}

fn hex_digit_exec(d: u32) -> (r: char)
    requires
        d < 16,
    ensures
        r == hex_digit(d as int),
{
    if d == 0 {
        '0'
    } else if d == 1 {
        '1'
    } else if d == 2 {
        '2'
    } else if d == 3 {
        '3'
    } else if d == 4 {
        '4'
    } else if d == 5 {
        '5'
    } else if d == 6 {
        '6'
    } else if d == 7 {
        '7'
    } else if d == 8 {
        '8'
    } else if d == 9 {
        '9'
    } else if d == 10 {
        'a'
    } else if d == 11 {
        'b'
    } else if d == 12 {
        'c'
    } else if d == 13 {
        'd'
    } else if d == 14 {
        'e'
    } else {
        'f'
    }
}

#[verifier::loop_isolation(false)]
fn push_escaped(out: &mut String, s: &String)
    ensures
        final(out)@ == old(out)@ + esc_seq(s@),
{
    let n = s.as_str().unicode_len();
    let mut i: usize = 0;
    while i < n
        invariant
            i <= n,
            n == s@.len(),
            out@ == old(out)@ + esc_seq(s@.take(i as int)),
        decreases n - i,
    {
        let c = s.as_str().get_char(i);
        let u = c as u32;
        if c == '"' {
            out.append("\\\"");
            proof {
                reveal_strlit("\\\"");
                assert("\\\""@ =~= esc_char(c));
            }
        } else if c == '\\' {
            out.append("\\\\");
            proof {
                reveal_strlit("\\\\");
                assert("\\\\"@ =~= esc_char(c));
            }
        } else if c == '\u{8}' {
            out.append("\\b");
            proof {
                reveal_strlit("\\b");
                assert("\\b"@ =~= esc_char(c));
            }
        } else if c == '\t' {
            out.append("\\t");
            proof {
                reveal_strlit("\\t");
                assert("\\t"@ =~= esc_char(c));
            }
        } else if c == '\n' {
            out.append("\\n");
            proof {
                reveal_strlit("\\n");
                assert("\\n"@ =~= esc_char(c));
            }
        } else if c == '\u{c}' {
            out.append("\\f");
            proof {
                reveal_strlit("\\f");
                assert("\\f"@ =~= esc_char(c));
            }
        } else if c == '\r' {
            out.append("\\r");
            proof {
                reveal_strlit("\\r");
                assert("\\r"@ =~= esc_char(c));
            }
        } else if u < 32 {
            out.append("\\u00");
            push_char(out, hex_digit_exec(u / 16));
            push_char(out, hex_digit_exec(u % 16));
            proof {
                reveal_strlit("\\u00");
                assert("\\u00"@.push(hex_digit(u as int / 16)).push(hex_digit(u as int % 16))
                    =~= esc_char(c));
            }
        } else {
            push_char(out, c);
            proof {
                assert(Seq::empty().push(c) =~= esc_char(c));
            }
        }
        proof {
            lemma_esc_seq_snoc(s@.take(i as int), s@[i as int]);
            assert(s@.take(i as int).push(s@[i as int]) =~= s@.take(i as int + 1));
            assert(out@ =~= old(out)@ + esc_seq(s@.take(i as int + 1)));
        }
        i = i + 1;
    }
    proof {
        assert(s@.take(n as int) =~= s@);
    }
}

/// Appends the JSON text of a tree to `out`.
#[verifier::loop_isolation(false)]
pub fn push_json(v: &JsonValue, out: &mut String)
    ensures
        final(out)@ == old(out)@ + jtext(v@),
    decreases jheight(*v), 0nat,
{
    match v {
        JsonValue::Null => {
            out.append("null");
        },
        JsonValue::Bool(b) => {
            if *b {
                out.append("true");
            } else {
                out.append("false");
            }
        },
        JsonValue::Int(i) => {
            let t = int_to_string(*i);
            out.append(t.as_str());
        },
        JsonValue::NumText(s) => {
            out.append(s.as_str());
        },
        JsonValue::Str(s) => {
            out.append("\"");
            push_escaped(out, s);
            out.append("\"");
            proof {
                reveal_strlit("\"");
                assert("\""@ =~= seq!['"']);
                assert(out@ =~= old(out)@ + jtext(v@));
            }
        },
        JsonValue::Array(a) => {
            out.append("[");
            proof {
                reveal_strlit("[");
                assert("["@ =~= seq!['[']);
            }
            if a.len() > 0 {
                proof {
                    lemma_jheight_seq(a@);
                    lemma_jmodel_seq(a@);
                }
                push_items(a, 0, out);
            }
            out.append("]");
            proof {
                reveal_strlit("]");
                assert("]"@ =~= seq![']']);
                lemma_jmodel_seq(a@);
                if a@.len() == 0 {
                    assert(jtext_items(jmodel_seq(a@)) =~= Seq::<char>::empty());
                } else {
                    assert(jmodel_seq(a@).skip(0) =~= jmodel_seq(a@));
                }
                assert(out@ =~= old(out)@ + jtext(v@));
            }
        },
        JsonValue::Object(o) => {
            out.append("{");
            proof {
                reveal_strlit("{");
                assert("{"@ =~= seq!['{']);
            }
            if o.len() > 0 {
                proof {
                    lemma_jheight_entries(o@);
                    lemma_jmodel_entries(o@);
                }
                push_entries(o, 0, out);
            }
            out.append("}");
            proof {
                reveal_strlit("}");
                assert("}"@ =~= seq!['}']);
                lemma_jmodel_entries(o@);
                if o@.len() == 0 {
                    assert(jtext_entries(jmodel_entries(o@)) =~= Seq::<char>::empty());
                } else {
                    assert(jmodel_entries(o@).skip(0) =~= jmodel_entries(o@));
                }
                assert(out@ =~= old(out)@ + jtext(v@));
            }
        },
    }
}

#[verifier::loop_isolation(false)]
fn push_items(a: &Vec<JsonValue>, i: usize, out: &mut String)
    requires
        i < a@.len(),
    ensures
        final(out)@ == old(out)@ + jtext_items(jmodel_seq(a@).skip(i as int)),
    decreases jheight_seq(a@), a@.len() - i, 1nat,
{
    proof {
        lemma_jmodel_seq(a@);
        lemma_jheight_seq(a@);
    }
    let n = a.len();
    push_json(&a[i], out);
    if i + 1 < n {
        out.append(",");
        push_items(a, i + 1, out);
        proof {
            reveal_strlit(",");
            assert(","@ =~= seq![',']);
            assert(jmodel_seq(a@).skip(i as int).drop_first() =~= jmodel_seq(a@).skip(
                i as int + 1,
            ));
            assert(jmodel_seq(a@).skip(i as int)[0] == jmodel(a@[i as int]));
            assert(out@ =~= old(out)@ + jtext_items(jmodel_seq(a@).skip(i as int)));
        }
    } else {
        proof {
            assert(jmodel_seq(a@).skip(i as int).len() == 1);
            assert(jmodel_seq(a@).skip(i as int)[0] == jmodel(a@[i as int]));
            assert(out@ =~= old(out)@ + jtext_items(jmodel_seq(a@).skip(i as int)));
        }
    }
}

#[verifier::loop_isolation(false)]
fn push_entries(o: &Vec<(String, JsonValue)>, i: usize, out: &mut String)
    requires
        i < o@.len(),
    ensures
        final(out)@ == old(out)@ + jtext_entries(jmodel_entries(o@).skip(i as int)),
    decreases jheight_entries(o@), o@.len() - i, 1nat,
{
    proof {
        lemma_jmodel_entries(o@);
        lemma_jheight_entries(o@);
    }
    out.append("\"");
    push_escaped(out, &o[i].0);
    out.append("\":");
    proof {
        reveal_strlit("\"");
        reveal_strlit("\":");
        assert("\""@ =~= seq!['"']);
        assert("\":"@ =~= seq!['"', ':']);
    }
    let n = o.len();
    push_json(&o[i].1, out);
    if i + 1 < n {
        out.append(",");
        push_entries(o, i + 1, out);
        proof {
            reveal_strlit(",");
            assert(","@ =~= seq![',']);
            assert(jmodel_entries(o@).skip(i as int).drop_first() =~= jmodel_entries(o@).skip(
                i as int + 1,
            ));
            assert(jmodel_entries(o@).skip(i as int)[0] == (o@[i as int].0@, jmodel(
                o@[i as int].1,
            )));
            assert(out@ =~= old(out)@ + jtext_entries(jmodel_entries(o@).skip(i as int)));
        }
    } else {
        proof {
            assert(jmodel_entries(o@).skip(i as int).len() == 1);
            assert(jmodel_entries(o@).skip(i as int)[0] == (o@[i as int].0@, jmodel(
                o@[i as int].1,
            )));
            assert(out@ =~= old(out)@ + jtext_entries(jmodel_entries(o@).skip(i as int)));
        }
    }
}

/// The JSON text of a tree, as a fresh string.
pub fn render_json(v: &JsonValue) -> (r: String)
    ensures
        r@ == jtext(v@),
{
    let mut out = String::new();
    push_json(v, &mut out);
    proof {
        assert(out@ =~= jtext(v@));
    }
    out
}

} // verus!
