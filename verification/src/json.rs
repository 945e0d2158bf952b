//! JSON text for request payloads.
//!
//! Operations whose arguments travel as JSON build their bodies here. A
//! [`JsonObjectWriter`] accumulates the members of one flat object; its
//! model is the sequence of key/value pairs written so far, so a payload's
//! contract can say exactly which keys it carries and in what order. String
//! values are escaped by the usual JSON rules: quote and backslash get a
//! backslash escape, the named control characters get their short escapes,
//! the remaining control characters a `\u00` escape with lowercase hex
//! digits, and everything else passes through unchanged.

use vstd::prelude::*;
use vstd::string::*;

use crate::text::{digit_char, i64_text, i64_dec};

verus! {

/// The lowercase hexadecimal digit character for a value below sixteen.
pub open spec fn hex_char(d: int) -> char {
    if d < 10 {
        digit_char(d)
    } else {
        ((d + 87) as char)
    }
}

/// The escape of one character inside a JSON string.
pub open spec fn esc_char(c: char) -> Seq<char> {
    if c == '"' {
        seq!['\\', '"']
    } else if c == '\\' {
        seq!['\\', '\\']
    } else if c as int == 8 {
        seq!['\\', 'b']
    } else if c as int == 9 {
        seq!['\\', 't']
    } else if c as int == 10 {
        seq!['\\', 'n']
    } else if c as int == 12 {
        seq!['\\', 'f']
    } else if c as int == 13 {
        seq!['\\', 'r']
    } else if (c as int) < 32 {
        seq!['\\', 'u', '0', '0', hex_char(c as int / 16), hex_char(c as int % 16)]
    } else {
        seq![c]
    }
}

/// The escaped content of a JSON string.
pub open spec fn json_escape(s: Seq<char>) -> Seq<char>
    decreases s.len(),
{
    if s.len() == 0 {
        Seq::empty()
    } else {
        json_escape(s.drop_last()) + esc_char(s.last())
    }
}

/// The JSON text of a string value: quotes around the escaped content.
pub open spec fn json_string(s: Seq<char>) -> Seq<char> {
    seq!['"'] + json_escape(s) + seq!['"']
}

/// The JSON text of a boolean value.
pub open spec fn json_bool(b: bool) -> Seq<char> {
    if b {
        "true"@
    } else {
        "false"@
    }
}

/// The text of one object member: the quoted key, a colon, the value text.
pub open spec fn member_text(m: (Seq<char>, Seq<char>)) -> Seq<char> {
    seq!['"'] + m.0 + seq!['"', ':'] + m.1
}

/// The text of an object's members, comma separated.
pub open spec fn members_text(ms: Seq<(Seq<char>, Seq<char>)>) -> Seq<char>
    decreases ms.len(),
{
    if ms.len() == 0 {
        Seq::empty()
    } else if ms.len() == 1 {
        member_text(ms[0])
    } else {
        members_text(ms.drop_last()) + seq![','] + member_text(ms.last())
    }
}

/// The text of one flat JSON object with the given members.
pub open spec fn json_object(ms: Seq<(Seq<char>, Seq<char>)>) -> Seq<char> {
    seq!['{'] + members_text(ms) + seq!['}']
}

/// Append one lowercase hexadecimal digit.
fn append_hex(s: &mut String, d: u8)
    requires
        d < 16,
    ensures
        final(s)@ == old(s)@ + seq![hex_char(d as int)],
{
    proof {
        reveal_strlit("0");
        reveal_strlit("1");
        reveal_strlit("2");
        reveal_strlit("3");
        reveal_strlit("4");
        reveal_strlit("5");
        reveal_strlit("6");
        reveal_strlit("7");
        reveal_strlit("8");
        reveal_strlit("9");
        reveal_strlit("a");
        reveal_strlit("b");
        reveal_strlit("c");
        reveal_strlit("d");
        reveal_strlit("e");
        reveal_strlit("f");
    }
    match d {
        0 => s.append("0"),
        1 => s.append("1"),
        2 => s.append("2"),
        3 => s.append("3"),
        4 => s.append("4"),
        5 => s.append("5"),
        6 => s.append("6"),
        7 => s.append("7"),
        8 => s.append("8"),
        9 => s.append("9"),
        10 => s.append("a"),
        11 => s.append("b"),
        12 => s.append("c"),
        13 => s.append("d"),
        14 => s.append("e"),
        _ => s.append("f"),
    }
    proof {
        assert(s@ =~= old(s)@ + seq![hex_char(d as int)]);
    }
}

/// Append the escaped content of a string value.
fn escape_into(out: &mut String, s: &str)
    ensures
        final(out)@ == old(out)@ + json_escape(s@),
{
    let n = s.unicode_len();
    let mut i: usize = 0;
    while i < n
        invariant
            i <= n,
            n == s@.len(),
            out@ == old(out)@ + json_escape(s@.subrange(0, i as int)),
        decreases n - i,
    {
        let c = s.get_char(i);
        let v = c as u32;
        proof {
            reveal_strlit("\\\"");
            reveal_strlit("\\\\");
            reveal_strlit("\\b");
            reveal_strlit("\\t");
            reveal_strlit("\\n");
            reveal_strlit("\\f");
            reveal_strlit("\\r");
            reveal_strlit("\\u00");
        }
        if c == '"' {
            out.append("\\\"");
        } else if c == '\\' {
            out.append("\\\\");
        } else if v == 8 {
            out.append("\\b");
        } else if v == 9 {
            out.append("\\t");
        } else if v == 10 {
            out.append("\\n");
        } else if v == 12 {
            out.append("\\f");
        } else if v == 13 {
            out.append("\\r");
        } else if v < 32 {
            out.append("\\u00");
            append_hex(out, (v / 16) as u8);
            append_hex(out, (v % 16) as u8);
        } else {
            let piece = s.substring_char(i, i + 1);
            proof {
                assert(piece@ =~= seq![s@[i as int]]);
            }
            out.append(piece);
        }
        proof {
            let p = s@.subrange(0, i as int);
            let q = s@.subrange(0, (i + 1) as int);
            assert(q.drop_last() =~= p);
            assert(q.last() == s@[i as int]);
            assert(out@ =~= old(out)@ + json_escape(q));
        }
        i = i + 1;
    }
    proof {
        assert(s@.subrange(0, n as int) =~= s@);
    }
}

/// The JSON text of a string value, quotes included.
pub fn json_string_text(s: &str) -> (r: String)
    ensures
        r@ == json_string(s@),
{
    proof {
        reveal_strlit("\"");
    }
    let mut v = "\"".to_owned();
    escape_into(&mut v, s);
    v.append("\"");
    proof {
        assert(v@ =~= json_string(s@));
    }
    v
}

/// The members an optional string field contributes: one when present,
/// none when absent.
pub open spec fn opt_string_m(key: Seq<char>, o: Option<String>) -> Seq<(Seq<char>, Seq<char>)> {
    match o {
        Option::Some(s) => seq![(key, json_string(s@))],
        Option::None => Seq::empty(),
    }
}

/// The members an optional integer field contributes.
pub open spec fn opt_i64_m(key: Seq<char>, o: Option<i64>) -> Seq<(Seq<char>, Seq<char>)> {
    match o {
        Option::Some(n) => seq![(key, i64_text(n as int))],
        Option::None => Seq::empty(),
    }
}

/// The members an optional boolean field contributes.
pub open spec fn opt_bool_m(key: Seq<char>, o: Option<bool>) -> Seq<(Seq<char>, Seq<char>)> {
    match o {
        Option::Some(b) => seq![(key, json_bool(b))],
        Option::None => Seq::empty(),
    }
}

/// The members an optional verbatim-text field contributes. The text is
/// spliced into the object unquoted; the caller keeps it JSON number text.
pub open spec fn opt_raw_m(key: Seq<char>, o: Option<String>) -> Seq<(Seq<char>, Seq<char>)> {
    match o {
        Option::Some(s) => seq![(key, s@)],
        Option::None => Seq::empty(),
    }
}

/// Builds the text of one flat JSON object, member by member.
///
/// The model is the sequence of key/value pairs written so far; the text
/// under construction is always exactly `json_object` of that model, less
/// the closing brace that [`JsonObjectWriter::finish`] adds.
pub struct JsonObjectWriter {
    buf: String,
    first: bool,
    members: Ghost<Seq<(Seq<char>, Seq<char>)>>,
}

impl JsonObjectWriter {
    /// The key/value pairs written so far, values as JSON text.
    pub closed spec fn members(self) -> Seq<(Seq<char>, Seq<char>)> {
        self.members@
    }

    /// The writer's text tracks its model.
    pub closed spec fn wf(self) -> bool {
        &&& self.buf@ == seq!['{'] + members_text(self.members@)
        &&& self.first <==> self.members@.len() == 0
    }

    /// An empty object, ready for members.
    pub fn new() -> (r: Self)
        ensures
            r.wf(),
            r.members() == Seq::<(Seq<char>, Seq<char>)>::empty(),
    {
        proof {
            reveal_strlit("{");
        }
        let buf = "{".to_owned();
        let r = JsonObjectWriter { buf, first: true, members: Ghost(Seq::empty()) };
        proof {
            assert(r.buf@ =~= seq!['{'] + members_text(r.members@));
        }
        r
    }

    /// Add one member whose value text is given verbatim.
    ///
    /// The caller is responsible for the value being JSON text; the key is
    /// written as-is between quotes, as every key here is a plain
    /// identifier.
    pub fn raw_member(&mut self, key: &str, value: &str)
        requires
            old(self).wf(),
        ensures
            final(self).wf(),
            final(self).members() == old(self).members().push((key@, value@)),
    {
        proof {
            reveal_strlit(",");
            reveal_strlit("\"");
            reveal_strlit("\":");
        }
        if self.first {
            self.first = false;
        } else {
            self.buf.append(",");
        }
        self.buf.append("\"");
        self.buf.append(key);
        self.buf.append("\":");
        self.buf.append(value);
        proof {
            let m = (key@, value@);
            let ms = old(self).members@;
            self.members@ = ms.push(m);
            if ms.len() == 0 {
                assert(members_text(ms.push(m)) == member_text(m));
            } else {
                assert(ms.push(m).drop_last() =~= ms);
            }
            assert(self.buf@ =~= seq!['{'] + members_text(ms.push(m)));
        }
    }

    /// Add one string member; the value is escaped and quoted.
    pub fn string_member(&mut self, key: &str, s: &str)
        requires
            old(self).wf(),
        ensures
            final(self).wf(),
            final(self).members() == old(self).members().push((key@, json_string(s@))),
    {
        let v = json_string_text(s);
        self.raw_member(key, v.as_str());
    }

    /// Add one integer member in decimal.
    pub fn i64_member(&mut self, key: &str, n: i64)
        requires
            old(self).wf(),
        ensures
            final(self).wf(),
            final(self).members() == old(self).members().push((key@, i64_text(n as int))),
    {
        let v = i64_dec(n);
        self.raw_member(key, v.as_str());
    }

    /// Add one boolean member.
    pub fn bool_member(&mut self, key: &str, b: bool)
        requires
            old(self).wf(),
        ensures
            final(self).wf(),
            final(self).members() == old(self).members().push((key@, json_bool(b))),
    {
        if b {
            self.raw_member(key, "true");
        } else {
            self.raw_member(key, "false");
        }
    }


    /// Add one member whose key needs escaping, with an integer value.
    pub fn escaped_i64_member(&mut self, key: &str, n: i64)
        requires
            old(self).wf(),
        ensures
            final(self).wf(),
            final(self).members() == old(self).members().push((json_escape(key@), i64_text(n as int))),
    {
        let mut ek = String::new();
        escape_into(&mut ek, key);
        let v = i64_dec(n);
        self.raw_member(ek.as_str(), v.as_str());
    }

    /// Add one string member when the field is present; write nothing
    /// when it is absent.
    pub fn opt_string_member(&mut self, key: &str, o: &Option<String>)
        requires
            old(self).wf(),
        ensures
            final(self).wf(),
            final(self).members() == old(self).members() + opt_string_m(key@, *o),
    {
        match o {
            Some(s) => {
                self.string_member(key, s.as_str());
                proof {
                    assert(self.members() =~= old(self).members() + opt_string_m(key@, *o));
                }
            },
            None => {
                proof {
                    assert(self.members() =~= old(self).members() + opt_string_m(key@, *o));
                }
            },
        }
    }

    /// Add one integer member when the field is present.
    pub fn opt_i64_member(&mut self, key: &str, o: &Option<i64>)
        requires
            old(self).wf(),
        ensures
            final(self).wf(),
            final(self).members() == old(self).members() + opt_i64_m(key@, *o),
    {
        match o {
            Some(n) => {
                self.i64_member(key, *n);
                proof {
                    assert(self.members() =~= old(self).members() + opt_i64_m(key@, *o));
                }
            },
            None => {
                proof {
                    assert(self.members() =~= old(self).members() + opt_i64_m(key@, *o));
                }
            },
        }
    }

    /// Add one boolean member when the field is present.
    pub fn opt_bool_member(&mut self, key: &str, o: &Option<bool>)
        requires
            old(self).wf(),
        ensures
            final(self).wf(),
            final(self).members() == old(self).members() + opt_bool_m(key@, *o),
    {
        match o {
            Some(b) => {
                self.bool_member(key, *b);
                proof {
                    assert(self.members() =~= old(self).members() + opt_bool_m(key@, *o));
                }
            },
            None => {
                proof {
                    assert(self.members() =~= old(self).members() + opt_bool_m(key@, *o));
                }
            },
        }
    }

    /// Add one member with verbatim value text when the field is present.
    pub fn opt_raw_member(&mut self, key: &str, o: &Option<String>)
        requires
            old(self).wf(),
        ensures
            final(self).wf(),
            final(self).members() == old(self).members() + opt_raw_m(key@, *o),
    {
        match o {
            Some(s) => {
                self.raw_member(key, s.as_str());
                proof {
                    assert(self.members() =~= old(self).members() + opt_raw_m(key@, *o));
                }
            },
            None => {
                proof {
                    assert(self.members() =~= old(self).members() + opt_raw_m(key@, *o));
                }
            },
        }
    }


    /// Close the object and hand back its text.
    pub fn finish(self) -> (r: String)
        requires
            self.wf(),
        ensures
            r@ == json_object(self.members()),
    {
        proof {
            reveal_strlit("}");
        }
        let mut buf = self.buf;
        buf.append("}");
        proof {
            assert(buf@ =~= json_object(self.members@));
        }
        buf
    }
}

} // verus!
