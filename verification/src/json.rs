//! A JSON value model and a verified encoder to JSON text.
//!
//! Requests carry a JSON body ({"query": ..., "variables": ...}); the
//! command handlers build the variables as [`Json`] values and the encoder
//! turns the whole body into wire text.  [`JsonVal`] is the mathematical
//! model of a value; [`jtext`] is the text it encodes to.

use vstd::prelude::*;
use crate::text::int_str;

verus! {

/// The mathematical model of a JSON value.
pub enum JsonVal {
    Bool(bool),
    Int(int),
    Str(Seq<char>),
    Arr(Seq<JsonVal>),
    Obj(Seq<(Seq<char>, JsonVal)>),
}

/// A JSON value as built at run time.  Objects keep their fields in
/// insertion order; a field is present exactly when it was pushed.
pub enum Json {
    Bool(bool),
    Int(i64),
    Str(String),
    Arr(Vec<Json>),
    Obj(Vec<(String, Json)>),
}

/// The model of one object field.
pub open spec fn pair_view(p: (String, Json)) -> (Seq<char>, JsonVal)
    decreases p,
{
    (p.0@, json_view(p.1))
}

/// The model of an array's elements.
pub open spec fn seq_arr_view(s: Seq<Json>) -> Seq<JsonVal>
    decreases s,
{
    if s.len() == 0 {
        Seq::empty()
    } else {
        seq_arr_view(s.subrange(0, s.len() - 1)).push(json_view(s[s.len() - 1]))
    }
}

/// The model of an object's fields.
pub open spec fn seq_obj_view(s: Seq<(String, Json)>) -> Seq<(Seq<char>, JsonVal)>
    decreases s,
{
    if s.len() == 0 {
        Seq::empty()
    } else {
        seq_obj_view(s.subrange(0, s.len() - 1)).push(pair_view(s[s.len() - 1]))
    }
}

/// The model of a JSON value.
pub open spec fn json_view(j: Json) -> JsonVal
    decreases j,
{
    match j {
        Json::Bool(b) => JsonVal::Bool(b),
        Json::Int(i) => JsonVal::Int(i as int),
        Json::Str(s) => JsonVal::Str(s@),
        Json::Arr(items) => JsonVal::Arr(seq_arr_view(items@)),
        Json::Obj(fields) => JsonVal::Obj(seq_obj_view(fields@)),
    }
}

impl View for Json {
    type V = JsonVal;

    open spec fn view(&self) -> JsonVal {
        json_view(*self)
    }
}

pub broadcast proof fn lemma_seq_arr_view(s: Seq<Json>)
    ensures
        (#[trigger] seq_arr_view(s)).len() == s.len(),
        forall|i: int| 0 <= i < s.len() ==> seq_arr_view(s)[i] == json_view(s[i]),
    decreases s,
{
    if s.len() > 0 {
        lemma_seq_arr_view(s.subrange(0, s.len() - 1));
    }
}

pub broadcast proof fn lemma_seq_obj_view(s: Seq<(String, Json)>)
    ensures
        (#[trigger] seq_obj_view(s)).len() == s.len(),
        forall|i: int| 0 <= i < s.len() ==> seq_obj_view(s)[i] == pair_view(s[i]),
    decreases s,
{
    if s.len() > 0 {
        lemma_seq_obj_view(s.subrange(0, s.len() - 1));
    }
}

/// The hexadecimal digit character for a nibble value.
pub open spec fn hex_char(n: nat) -> char
    recommends
        n < 16,
{
    if n < 10 {
        crate::text::digit_char(n)
    } else if n == 10 {
        'a'
    } else if n == 11 {
        'b'
    } else if n == 12 {
        'c'
    } else if n == 13 {
        'd'
    } else if n == 14 {
        'e'
    } else {
        'f'
    }
}

/// How one character appears inside a JSON string literal: quotes and
/// backslashes get a backslash escape, control characters a \u00XX escape,
/// and every other character stands for itself.
pub open spec fn esc_char(c: char) -> Seq<char> {
    if c == '"' {
        seq!['\\', '"']
    } else if c == '\\' {
        seq!['\\', '\\']
    } else if (c as u32) < 32 {
        seq!['\\', 'u', '0', '0', hex_char((c as u32 / 16) as nat), hex_char(
            (c as u32 % 16) as nat,
        )]
    } else {
        seq![c]
    }
}

/// The escaped body of a JSON string literal.
pub open spec fn esc_seq(s: Seq<char>) -> Seq<char>
    decreases s.len(),
{
    if s.len() == 0 {
        Seq::empty()
    } else {
        esc_seq(s.subrange(0, s.len() - 1)) + esc_char(s[s.len() - 1])
    }
}

/// The text of a JSON string literal: the escaped body in double quotes.
pub open spec fn str_text(s: Seq<char>) -> Seq<char> {
    seq!['"'] + esc_seq(s) + seq!['"']
}

/// The text of an array's elements, comma separated.
pub open spec fn items_text(items: Seq<JsonVal>) -> Seq<char>
    decreases items,
{
    if items.len() == 0 {
        Seq::empty()
    } else if items.len() == 1 {
        jtext(items[0])
    } else {
        jtext(items[0]) + seq![','] + items_text(items.subrange(1, items.len() as int))
    }
}

/// The text of one object field: the quoted key, a colon, the value.
pub open spec fn field_text(f: (Seq<char>, JsonVal)) -> Seq<char>
    decreases f,
{
    str_text(f.0) + seq![':'] + jtext(f.1)
}

/// The text of an object's fields, comma separated.
pub open spec fn fields_text(fields: Seq<(Seq<char>, JsonVal)>) -> Seq<char>
    decreases fields,
{
    if fields.len() == 0 {
        Seq::empty()
    } else if fields.len() == 1 {
        field_text(fields[0])
    } else {
        field_text(fields[0]) + seq![','] + fields_text(
            fields.subrange(1, fields.len() as int),
        )
    }
}

/// The JSON text of a value.
pub open spec fn jtext(v: JsonVal) -> Seq<char>
    decreases v,
{
    match v {
        JsonVal::Bool(b) => if b {
            "true"@
        } else {
            "false"@
        },
        JsonVal::Int(i) => int_str(i),
        JsonVal::Str(s) => str_text(s),
        JsonVal::Arr(items) => seq!['['] + items_text(items) + seq![']'],
        JsonVal::Obj(fields) => seq!['{'] + fields_text(fields) + seq!['}'],
    }
}

proof fn lemma_items_text_push(t: Seq<JsonVal>, x: JsonVal)
    ensures
        items_text(t.push(x)) == if t.len() == 0 {
            jtext(x)
        } else {
            items_text(t) + seq![','] + jtext(x)
        },
    decreases t.len(),
{
    let u = t.push(x);
    if t.len() == 0 {
        assert(items_text(u) == jtext(u[0]));
    } else {
        let tsub = t.subrange(1, t.len() as int);
        assert(u.subrange(1, u.len() as int) =~= tsub.push(x));
        lemma_items_text_push(tsub, x);
        if t.len() == 1 {
            assert(items_text(u) =~= items_text(t) + seq![','] + jtext(x));
        } else {
            assert(items_text(u) =~= items_text(t) + seq![','] + jtext(x));
        }
    }
}

proof fn lemma_fields_text_push(t: Seq<(Seq<char>, JsonVal)>, x: (Seq<char>, JsonVal))
    ensures
        fields_text(t.push(x)) == if t.len() == 0 {
            field_text(x)
        } else {
            fields_text(t) + seq![','] + field_text(x)
        },
    decreases t.len(),
{
    let u = t.push(x);
    if t.len() == 0 {
        assert(fields_text(u) == field_text(u[0]));
    } else {
        let tsub = t.subrange(1, t.len() as int);
        assert(u.subrange(1, u.len() as int) =~= tsub.push(x));
        lemma_fields_text_push(tsub, x);
        assert(fields_text(u) =~= fields_text(t) + seq![','] + field_text(x));
    }
}

fn exec_hex_char(n: u32) -> (c: char)
    requires
        n < 16,
    ensures
        c == hex_char(n as nat),
{
    match n {
        0 => '0',
        1 => '1',
        2 => '2',
        3 => '3',
        4 => '4',
        5 => '5',
        6 => '6',
        7 => '7',
        8 => '8',
        9 => '9',
        10 => 'a',
        11 => 'b',
        12 => 'c',
        13 => 'd',
        14 => 'e',
        _ => 'f',
    }
}

fn push_esc_char(c: char, out: &mut String)
    ensures
        final(out)@ == old(out)@ + esc_char(c),
{
    let v = c as u32;
    if c == '"' {
        crate::text::push_char(out, '\\');
        crate::text::push_char(out, '"');
        assert(final(out)@ =~= old(out)@ + esc_char(c));
    } else if c == '\\' {
        crate::text::push_char(out, '\\');
        crate::text::push_char(out, '\\');
        assert(final(out)@ =~= old(out)@ + esc_char(c));
    } else if v < 32 {
        crate::text::push_char(out, '\\');
        crate::text::push_char(out, 'u');
        crate::text::push_char(out, '0');
        crate::text::push_char(out, '0');
        crate::text::push_char(out, exec_hex_char(v / 16));
        crate::text::push_char(out, exec_hex_char(v % 16));
        assert(final(out)@ =~= old(out)@ + esc_char(c));
    } else {
        crate::text::push_char(out, c);
        assert(final(out)@ =~= old(out)@ + esc_char(c));
    }
}

/// Appends the quoted, escaped JSON literal of `s` to `out`.
pub fn push_str_lit(s: &str, out: &mut String)
    ensures
        final(out)@ == old(out)@ + str_text(s@),
{
    crate::text::push_char(out, '"');
    let len = s.unicode_len();
    let mut i: usize = 0;
    while i < len
        invariant
            i <= len,
            len == s@.len(),
            out@ == old(out)@.push('"') + esc_seq(s@.subrange(0, i as int)),
        decreases len - i,
    {
        let c = s.get_char(i);
        push_esc_char(c, out);
        proof {
            let t = s@.subrange(0, i + 1);
            assert(t.subrange(0, t.len() - 1) =~= s@.subrange(0, i as int));
            assert(out@ =~= old(out)@.push('"') + esc_seq(s@.subrange(0, i + 1)));
        }
        i = i + 1;
    }
    crate::text::push_char(out, '"');
    proof {
        assert(s@.subrange(0, s@.len() as int) =~= s@);
        assert(final(out)@ =~= old(out)@ + str_text(s@));
    }
}

fn write_items(items: &Vec<Json>, out: &mut String)
    ensures
        final(out)@ == old(out)@ + items_text(seq_arr_view(items@)),
    decreases *items,
{
    proof {
        lemma_seq_arr_view(items@);
    }
    let ghost av = seq_arr_view(items@);
    let mut i: usize = 0;
    while i < items.len()
        invariant
            i <= items.len(),
            av == seq_arr_view(items@),
            av.len() == items@.len(),
            forall|k: int| 0 <= k < items@.len() ==> av[k] == json_view(items@[k]),
            out@ == old(out)@ + items_text(av.subrange(0, i as int)),
        decreases items.len() - i,
    {
        if i > 0 {
            crate::text::push_char(out, ',');
        }
        items[i].write(out);
        proof {
            assert(av.subrange(0, i + 1) =~= av.subrange(0, i as int).push(av[i as int]));
            lemma_items_text_push(av.subrange(0, i as int), av[i as int]);
            assert(out@ =~= old(out)@ + items_text(av.subrange(0, i + 1)));
        }
        i = i + 1;
    }
    proof {
        assert(av.subrange(0, av.len() as int) =~= av);
    }
}

fn write_field(f: &(String, Json), out: &mut String)
    ensures
        final(out)@ == old(out)@ + field_text(pair_view(*f)),
    decreases *f,
{
    push_str_lit(f.0.as_str(), out);
    crate::text::push_char(out, ':');
    f.1.write(out);
    assert(final(out)@ =~= old(out)@ + field_text(pair_view(*f)));
}

fn write_fields(fields: &Vec<(String, Json)>, out: &mut String)
    ensures
        final(out)@ == old(out)@ + fields_text(seq_obj_view(fields@)),
    decreases *fields,
{
    proof {
        lemma_seq_obj_view(fields@);
    }
    let ghost fv = seq_obj_view(fields@);
    let mut i: usize = 0;
    while i < fields.len()
        invariant
            i <= fields.len(),
            fv == seq_obj_view(fields@),
            fv.len() == fields@.len(),
            forall|k: int| 0 <= k < fields@.len() ==> fv[k] == pair_view(fields@[k]),
            out@ == old(out)@ + fields_text(fv.subrange(0, i as int)),
        decreases fields.len() - i,
    {
        if i > 0 {
            crate::text::push_char(out, ',');
        }
        write_field(&fields[i], out);
        proof {
            assert(fv.subrange(0, i + 1) =~= fv.subrange(0, i as int).push(fv[i as int]));
            lemma_fields_text_push(fv.subrange(0, i as int), fv[i as int]);
            assert(out@ =~= old(out)@ + fields_text(fv.subrange(0, i + 1)));
        }
        i = i + 1;
    }
    proof {
        assert(fv.subrange(0, fv.len() as int) =~= fv);
    }
}

/// Builds a JSON object field by field, in order.
pub struct ObjBuilder {
    fields: Vec<(String, Json)>,
}

impl View for ObjBuilder {
    type V = Seq<(Seq<char>, JsonVal)>;

    closed spec fn view(&self) -> Seq<(Seq<char>, JsonVal)> {
        seq_obj_view(self.fields@)
    }
}

impl ObjBuilder {
    /// An object with no fields yet.
    pub fn new() -> (b: ObjBuilder)
        ensures
            b@ == Seq::<(Seq<char>, JsonVal)>::empty(),
    {
        let b = ObjBuilder { fields: Vec::new() };
        proof {
            assert(b@ =~= Seq::<(Seq<char>, JsonVal)>::empty());
        }
        b
    }

    /// How many fields have been added.
    pub fn len(&self) -> (n: usize)
        ensures
            n == self@.len(),
    {
        proof {
            lemma_seq_obj_view(self.fields@);
        }
        self.fields.len()
    }

    /// Adds a string-valued field.
    pub fn push_str(&mut self, key: &str, value: &str)
        ensures
            final(self)@ == old(self)@.push((key@, JsonVal::Str(value@))),
    {
        self.push_json(key, Json::Str(value.to_owned()));
    }

    /// Adds an integer-valued field.
    pub fn push_int(&mut self, key: &str, value: i64)
        ensures
            final(self)@ == old(self)@.push((key@, JsonVal::Int(value as int))),
    {
        self.push_json(key, Json::Int(value));
    }

    /// Adds a field holding any JSON value.
    pub fn push_json(&mut self, key: &str, value: Json)
        ensures
            final(self)@ == old(self)@.push((key@, json_view(value))),
    {
        let ghost before = self.fields@;
        self.fields.push((key.to_owned(), value));
        proof {
            let now = self.fields@;
            assert(now.subrange(0, now.len() - 1) =~= before);
            assert(seq_obj_view(now) == seq_obj_view(before).push(pair_view(now[now.len() - 1])));
            assert(pair_view(now[now.len() - 1]) == (key@, json_view(value)));
        }
    }

    /// The finished object.
    pub fn finish(self) -> (j: Json)
        ensures
            j@ == JsonVal::Obj(self@),
    {
        Json::Obj(self.fields)
    }
}

impl Json {
    /// Appends the JSON text of this value to `out`.
    pub fn write(&self, out: &mut String)
        ensures
            final(out)@ == old(out)@ + jtext(self@),
        decreases *self,
    {
        match self {
            Json::Bool(b) => {
                if *b {
                    out.append("true");
                } else {
                    out.append("false");
                }
            },
            Json::Int(i) => {
                crate::text::push_i64(*i, out);
            },
            Json::Str(s) => {
                push_str_lit(s.as_str(), out);
            },
            Json::Arr(items) => {
                crate::text::push_char(out, '[');
                write_items(items, out);
                crate::text::push_char(out, ']');
                assert(final(out)@ =~= old(out)@ + jtext(self@));
            },
            Json::Obj(fields) => {
                crate::text::push_char(out, '{');
                write_fields(fields, out);
                crate::text::push_char(out, '}');
                assert(final(out)@ =~= old(out)@ + jtext(self@));
            },
        }
    }

    /// The JSON text of this value as a fresh string.
    pub fn to_text(&self) -> (r: String)
        ensures
            r@ == jtext(self@),
    {
        let mut out = String::new();
        self.write(&mut out);
        assert(out@ =~= jtext(self@));
        out
    }
}

} // verus!
