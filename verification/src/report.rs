//! Space-separated `key=value` report lines, as the control socket and the
//! log print them.
use vstd::prelude::*;
use crate::text::{dec, hex, int_text, push_char, push_dec, push_hex, push_int, push_str};

verus! {

/// The value of one report field, with the way it is printed.
#[derive(Clone, Copy)]
pub enum FieldValue {
    /// An unsigned integer in decimal.
    Dec(u64),
    /// A signed integer in decimal.
    Int(i64),
    /// An unsigned integer as `0x`-prefixed lower-case hexadecimal.
    Hex(u64),
    /// A fixed word.
    Text(&'static str),
    /// A boolean as `true` or `false`.
    Flag(bool),
}

/// One `key=value` field.
#[derive(Clone, Copy)]
pub struct Field {
    pub key: &'static str,
    pub value: FieldValue,
}

pub open spec fn value_text(v: FieldValue) -> Seq<char> {
    match v {
        FieldValue::Dec(n) => dec(n as nat),
        FieldValue::Int(n) => int_text(n as int),
        FieldValue::Hex(n) => hex(n as nat),
        FieldValue::Text(t) => t@,
        FieldValue::Flag(b) => if b {
            seq!['t', 'r', 'u', 'e']
        } else {
            seq!['f', 'a', 'l', 's', 'e']
        },
    }
}

/// ` key=value`.
pub open spec fn field_text(f: Field) -> Seq<char> {
    seq![' '] + f.key@ + seq!['='] + value_text(f.value)
}

/// The fields in order, each preceded by a space.
pub open spec fn fields_text(fields: Seq<Field>) -> Seq<char>
    decreases fields.len(),
{
    if fields.len() == 0 {
        Seq::empty()
    } else {
        fields_text(fields.drop_last()) + field_text(fields.last())
    }
}

pub fn push_value(s: &mut String, v: FieldValue)
    ensures
        final(s)@ == old(s)@ + value_text(v),
{
    match v {
        FieldValue::Dec(n) => push_dec(s, n),
        FieldValue::Int(n) => push_int(s, n),
        FieldValue::Hex(n) => push_hex(s, n),
        FieldValue::Text(t) => push_str(s, t),
        FieldValue::Flag(b) => {
            if b {
                push_char(s, 't');
                push_char(s, 'r');
                push_char(s, 'u');
                push_char(s, 'e');
            } else {
                push_char(s, 'f');
                push_char(s, 'a');
                push_char(s, 'l');
                push_char(s, 's');
                push_char(s, 'e');
            }
            assert(final(s)@ =~= old(s)@ + value_text(v));
        },
    }
}

/// Appends ` key=value` for each field.
pub fn push_fields(s: &mut String, fields: &Vec<Field>)
    ensures
        final(s)@ == old(s)@ + fields_text(fields@),
{
    let ghost start = s@;
    let mut i: usize = 0;
    while i < fields.len()
        invariant
            i <= fields.len(),
            s@ == start + fields_text(fields@.subrange(0, i as int)),
        decreases fields.len() - i,
    {
        let f = fields[i];
        push_char(s, ' ');
        push_str(s, f.key);
        push_char(s, '=');
        push_value(s, f.value);
        proof {
            assert(fields@.subrange(0, i as int + 1).drop_last() =~= fields@.subrange(0, i as int));
        }
        i = i + 1;
        assert(s@ =~= start + fields_text(fields@.subrange(0, i as int)));
    }
    assert(fields@.subrange(0, fields@.len() as int) =~= fields@);
}

/// A report line: the label followed by the fields.
pub fn render(label: &str, fields: &Vec<Field>) -> (s: String)
    ensures
        s@ == label@ + fields_text(fields@),
{
    let mut s = String::new();
    push_str(&mut s, label);
    push_fields(&mut s, fields);
    s
}

} // verus!
