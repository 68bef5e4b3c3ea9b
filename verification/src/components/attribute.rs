//! The attribute convention shared by all components.
//!
//! Every component is configured by a record with one public field per property.
//! The record's `default` gives every field its default, and one setter per field,
//! named `set_` followed by the field's name, overwrites that field and no other.
//!
//! The view of an attribute record is the map from the names of its fields to what
//! they hold; a setter is an `insert` into that map. The records of the built-in
//! widgets are written out by hand. For other components [`expand`] produces the
//! same boilerplate as source text.

use vstd::prelude::*;

verus! {

/// The record that results from `record` when the setters named in `writes` are
/// called in order, each with the value beside its field's name.
pub open spec fn written<V>(
    record: Map<Seq<char>, V>,
    writes: Seq<(Seq<char>, V)>,
) -> Map<Seq<char>, V>
    decreases writes.len(),
{
    if writes.len() == 0 {
        record
    } else {
        written(record, writes.drop_last()).insert(writes.last().0, writes.last().1)
    }
}

/// The value of the last write to `field` among `writes`, if there is any.
pub open spec fn last_write<V>(writes: Seq<(Seq<char>, V)>, field: Seq<char>) -> Option<V>
    decreases writes.len(),
{
    if writes.len() == 0 {
        None
    } else if writes.last().0 == field {
        Some(writes.last().1)
    } else {
        last_write(writes.drop_last(), field)
    }
}

/// Default, then override: after any sequence of setter calls, a field that was set
/// holds the value of its last write, and a field that was not set holds what it
/// held before, which for a fresh record is its default. No write adds or removes
/// a field other than its own.
pub proof fn lemma_default_then_override<V>(
    defaults: Map<Seq<char>, V>,
    writes: Seq<(Seq<char>, V)>,
    field: Seq<char>,
)
    ensures
        written(defaults, writes).dom().contains(field) <==> defaults.dom().contains(field)
            || last_write(writes, field) is Some,
        written(defaults, writes)[field] == match last_write(writes, field) {
            Some(value) => value,
            None => defaults[field],
        },
    decreases writes.len(),
{
    if writes.len() > 0 {
        lemma_default_then_override(defaults, writes.drop_last(), field);
    }
}

/// The order of setter calls matters only through the last write to each field: two
/// sequences of calls that agree on every field's last write build the same record.
pub proof fn lemma_write_order_is_irrelevant<V>(
    defaults: Map<Seq<char>, V>,
    first: Seq<(Seq<char>, V)>,
    second: Seq<(Seq<char>, V)>,
)
    requires
        forall|field: Seq<char>| last_write(first, field) == last_write(second, field),
    ensures
        written(defaults, first) == written(defaults, second),
{
    let one = written(defaults, first);
    let other = written(defaults, second);
    assert forall|field: Seq<char>| #[trigger]
        one.dom().contains(field) == other.dom().contains(field) by {
        lemma_default_then_override(defaults, first, field);
        lemma_default_then_override(defaults, second, field);
    }
    assert forall|field: Seq<char>| #[trigger] one.dom().contains(field) implies one[field]
        == other[field] by {
        lemma_default_then_override(defaults, first, field);
        lemma_default_then_override(defaults, second, field);
    }
    assert(one =~= other);
}

/// Setters of different fields commute.
pub proof fn lemma_setters_of_different_fields_commute<V>(
    record: Map<Seq<char>, V>,
    one: (Seq<char>, V),
    other: (Seq<char>, V),
)
    requires
        one.0 != other.0,
    ensures
        written(record, seq![one, other]) == written(record, seq![other, one]),
{
    let forth = seq![one, other];
    let back = seq![other, one];
    reveal_with_fuel(written, 3);
    assert(forth.drop_last() =~= seq![one]);
    assert(back.drop_last() =~= seq![other]);
    assert(seq![one].drop_last() =~= Seq::<(Seq<char>, V)>::empty());
    assert(seq![other].drop_last() =~= Seq::<(Seq<char>, V)>::empty());
    assert(written(record, forth) =~= written(record, back));
}

/// An identifier as it enters a longer name: a raw identifier loses its `r#`.
pub open spec fn plain(name: Seq<char>) -> Seq<char> {
    if name.len() >= 2 && name[0] == 'r' && name[1] == '#' {
        name.skip(2)
    } else {
        name
    }
}

/// Strips the raw-identifier prefix from `name`, if it has one.
pub fn plain_name(name: &str) -> (stripped: &str)
    ensures
        stripped@ == plain(name@),
{
    let len = name.unicode_len();
    if len >= 2 && name.get_char(0) == 'r' && name.get_char(1) == '#' {
        name.substring_char(2, len)
    } else {
        name
    }
}

/// The name of the attribute record that configures the component `component`.
pub fn attribute_name(component: &str) -> (name: String)
    ensures
        name@ == plain(component@) + "Attribute"@,
{
    String::from_str(plain_name(component)).concat("Attribute")
}

/// The name of the setter of the field `field`.
pub fn setter_name(field: &str) -> (name: String)
    ensures
        name@ == "set_"@ + plain(field@),
{
    String::from_str("set_").concat(plain_name(field))
}

/// One named field of a component: its name and its type, both as source text.
pub struct Field {
    pub name: String,
    pub ty: String,
}

impl Field {
    /// The field's declaration inside a record: public, followed by a comma.
    pub open spec fn declaration(self) -> Seq<char> {
        "pub "@ + self.name@ + ": "@ + self.ty@ + ", "@
    }

    /// The field's setter: public, it takes the new value and assigns it to the field.
    pub open spec fn setter(self) -> Seq<char> {
        "pub fn "@ + ("set_"@ + plain(self.name@)) + "(&mut self, value: "@ + self.ty@ + ") { self."@
            + self.name@ + " = value; } "@
    }
}

/// The declarations of `fields`, in order.
pub open spec fn declarations(fields: Seq<Field>) -> Seq<char>
    decreases fields.len(),
{
    if fields.len() == 0 {
        Seq::empty()
    } else {
        declarations(fields.drop_last()) + fields.last().declaration()
    }
}

/// The setters of `fields`, in order.
pub open spec fn setters(fields: Seq<Field>) -> Seq<char>
    decreases fields.len(),
{
    if fields.len() == 0 {
        Seq::empty()
    } else {
        setters(fields.drop_last()) + fields.last().setter()
    }
}

/// The source text generated for the component `component` with the fields `fields`:
/// the component with public fields, its attribute record with the same fields and a
/// derived default, and the record's public setters.
pub open spec fn expansion(component: Seq<char>, fields: Seq<Field>) -> Seq<char> {
    let record = plain(component) + "Attribute"@;
    "pub struct "@ + component + " { "@ + declarations(fields) + "} "@
        + "#[derive(Default)] pub struct "@ + record + " { "@ + declarations(fields) + "} "@
        + "impl "@ + record + " { "@ + setters(fields) + "}"@
}

/// Appends the declarations of `fields` to `source`.
fn push_declarations(source: &mut String, fields: &Vec<Field>)
    ensures
        final(source)@ == old(source)@ + declarations(fields@),
{
    let mut i: usize = 0;
    while i < fields.len()
        invariant
            i <= fields.len(),
            source@ == old(source)@ + declarations(fields@.take(i as int)),
        decreases fields.len() - i,
    {
        let ghost before = source@;
        let field = &fields[i];
        source.append("pub ");
        source.append(field.name.as_str());
        source.append(": ");
        source.append(field.ty.as_str());
        source.append(", ");
        proof {
            assert(fields@.take(i + 1).drop_last() =~= fields@.take(i as int));
            assert(source@ =~= before + field.declaration());
            assert(source@ =~= old(source)@ + declarations(fields@.take(i + 1)));
        }
        i += 1;
    }
    proof {
        assert(fields@.take(i as int) =~= fields@);
    }
}

/// Appends the setters of `fields` to `source`.
fn push_setters(source: &mut String, fields: &Vec<Field>)
    ensures
        final(source)@ == old(source)@ + setters(fields@),
{
    let mut i: usize = 0;
    while i < fields.len()
        invariant
            i <= fields.len(),
            source@ == old(source)@ + setters(fields@.take(i as int)),
        decreases fields.len() - i,
    {
        let ghost before = source@;
        let field = &fields[i];
        let setter = setter_name(field.name.as_str());
        source.append("pub fn ");
        source.append(setter.as_str());
        source.append("(&mut self, value: ");
        source.append(field.ty.as_str());
        source.append(") { self.");
        source.append(field.name.as_str());
        source.append(" = value; } ");
        proof {
            assert(fields@.take(i + 1).drop_last() =~= fields@.take(i as int));
            assert(source@ =~= before + field.setter());
            assert(source@ =~= old(source)@ + setters(fields@.take(i + 1)));
        }
        i += 1;
    }
    proof {
        assert(fields@.take(i as int) =~= fields@);
    }
}

/// Generates the source text for the component `component` with the fields `fields`.
pub fn expand(component: &str, fields: &Vec<Field>) -> (source: String)
    ensures
        source@ == expansion(component@, fields@),
{
    let record = attribute_name(component);
    let mut source = String::from_str("pub struct ");
    source.append(component);
    source.append(" { ");
    push_declarations(&mut source, fields);
    source.append("} ");
    source.append("#[derive(Default)] pub struct ");
    source.append(record.as_str());
    source.append(" { ");
    push_declarations(&mut source, fields);
    source.append("} ");
    source.append("impl ");
    source.append(record.as_str());
    source.append(" { ");
    push_setters(&mut source, fields);
    source.append("}");
    proof {
        assert(source@ =~= expansion(component@, fields@));
    }
    source
}

} // verus!
