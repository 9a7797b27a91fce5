//! The emitter for Go.
//!
//! The text for Go is made by the template engine Tera. What this file works
//! out is the value that the template is given: under the name `packets`,
//! for each packet its name, its byte order, and for each field its exported
//! name and its Go type. The rendering itself is the caller's: the emitter
//! hands the value to a function of the caller, which calls Tera on the
//! template of its choice, and turns what comes back into its own result.

use crate::codec::Endianness;
use crate::generators::{unsupported_from, GenerateError, GenerateErrorView};
use crate::ir::{
    build_unit_codec, codec_of, governing_expr, holds_aggregate, lemma_aggregate_has_no_codec,
    name_taken, CodecErrorView,
};
use crate::models::codegen_models::TwoStringValue;
use crate::models::parsing_models::{
    PacketExpr, PacketExprList, PacketExprView, PrimitiveType, TypeExprView, TypeNode,
};
use crate::text::decimal;
use crate::utilities::{capitalize_first, capitalized, string_views};
use vstd::prelude::*;
use vstd::string::*;

verus! {

/// `tera::Value`: a value that a Tera template can be given. What it holds
/// is seen through [`value_texts`] and [`value_lists`] alone.
#[verifier::external_type_specification]
#[verifier::external_body]
pub struct ExTemplateValue(tera::Value);

/// `tera::Error`: why Tera could not render a template. Nothing of what it
/// holds is seen here.
#[verifier::external_type_specification]
#[verifier::external_body]
pub struct ExTemplateError(tera::Error);

/// The texts that a template value holds, each under the way to it: the
/// keys of the records and the places in the lists that lead to the text,
/// from the outside in, a place written as its decimal numeral. A value that
/// is itself a text holds that text under the empty way.
pub uninterp spec fn value_texts(value: tera::Value) -> Map<Seq<Seq<char>>, Seq<char>>;

/// The lengths of the lists that a template value holds, each under the way
/// to the list. A value that is itself a list holds its length under the
/// empty way.
pub uninterp spec fn value_lists(value: tera::Value) -> Map<Seq<Seq<char>>, nat>;

/// What `part` holds, one step further in: under each way of `part` with
/// `step` put before it.
pub open spec fn under<V>(step: Seq<char>, part: Map<Seq<Seq<char>>, V>) -> Map<
    Seq<Seq<char>>,
    V,
> {
    Map::new(
        |way: Seq<Seq<char>>| way.len() > 0 && way[0] == step && part.dom().contains(way.skip(1)),
        |way: Seq<Seq<char>>| part[way.skip(1)],
    )
}

/// What the first `count` of `parts` hold together, each under the step of
/// `steps` that stands at its place.
pub open spec fn gathered<V>(
    steps: Seq<Seq<char>>,
    parts: Seq<Map<Seq<Seq<char>>, V>>,
    count: nat,
) -> Map<Seq<Seq<char>>, V>
    decreases count,
{
    if count == 0 {
        Map::empty()
    } else {
        gathered(steps, parts, (count - 1) as nat).union_prefer_right(
            under(steps[count - 1], parts[count - 1]),
        )
    }
}

/// The steps that lead into a list of `count` items: the numerals of the
/// places `0`, `1` and so on.
pub open spec fn places(count: nat) -> Seq<Seq<char>> {
    Seq::new(count, |i: int| decimal(i as nat))
}

/// The texts that each of `values` holds.
pub open spec fn texts_of(values: Seq<tera::Value>) -> Seq<Map<Seq<Seq<char>>, Seq<char>>> {
    Seq::new(values.len(), |i: int| value_texts(values[i]))
}

/// The lengths of the lists that each of `values` holds.
pub open spec fn lists_of(values: Seq<tera::Value>) -> Seq<Map<Seq<Seq<char>>, nat>> {
    Seq::new(values.len(), |i: int| value_lists(values[i]))
}

/// The one text `text`, under the empty way.
pub open spec fn leaf(text: Seq<char>) -> Map<Seq<Seq<char>>, Seq<char>> {
    map![Seq::<Seq<char>>::empty() => text]
}

/// No list at all.
pub open spec fn no_lists() -> Map<Seq<Seq<char>>, nat> {
    Map::empty()
}

/// No two of `keys` are the same.
pub open spec fn all_differ(keys: Seq<Seq<char>>) -> bool {
    forall|i: int, j: int| 0 <= i < j < keys.len() ==> keys[i] != keys[j]
}

/// `tera::Value::String`: the template value that is a copy of `text`. It
/// holds that text, under the empty way, and no list.
#[verifier::external_body]
fn text_value(text: &String) -> (value: tera::Value)
    ensures
        value_texts(value) == leaf(text@),
        value_lists(value) == no_lists(),
{
    tera::Value::String(text.clone())
}

/// `tera::Value::Array`: the template value that lists `items` in order. It
/// holds what each item holds, under the numeral of the item's place, and
/// its own length.
#[verifier::external_body]
fn list_value(items: Vec<tera::Value>) -> (value: tera::Value)
    ensures
        value_texts(value) == gathered(
            places(items.len() as nat),
            texts_of(items@),
            items.len() as nat,
        ),
        value_lists(value) == gathered(
            places(items.len() as nat),
            lists_of(items@),
            items.len() as nat,
        ).insert(Seq::empty(), items.len() as nat),
{
    tera::Value::Array(items)
}

/// `tera::Value::Object` on the `tera::Map` collected from the pairs of
/// `keys` and `values`: the template value in which each key names the value
/// at the same place. Where no key occurs twice, it holds what each value
/// holds, under the value's key.
#[verifier::external_body]
fn record_value(keys: Vec<String>, values: Vec<tera::Value>) -> (value: tera::Value)
    requires
        keys.len() == values.len(),
        all_differ(string_views(keys@)),
    ensures
        value_texts(value) == gathered(
            string_views(keys@),
            texts_of(values@),
            keys.len() as nat,
        ),
        value_lists(value) == gathered(
            string_views(keys@),
            lists_of(values@),
            keys.len() as nat,
        ),
{
    tera::Value::Object(keys.into_iter().zip(values).collect())
}

/// `ToString::to_string` on a `tera::Error`: the message of the error.
/// Nothing is claimed of the text.
#[verifier::external_body]
fn error_text(error: &tera::Error) -> String {
    error.to_string()
}

/// The texts of a pair: `first` under `value1` and `second` under `value2`.
pub open spec fn pair_texts(first: Seq<char>, second: Seq<char>) -> Map<
    Seq<Seq<char>>,
    Seq<char>,
> {
    map![seq!["value1"@] => first, seq!["value2"@] => second]
}

/// The texts of the first `count` of `pairs`, each pair under the numeral of
/// its place.
pub open spec fn pairs_texts(pairs: Seq<(Seq<char>, Seq<char>)>, count: nat) -> Map<
    Seq<Seq<char>>,
    Seq<char>,
> {
    gathered(
        places(count),
        Seq::new(count, |i: int| pair_texts(pairs[i].0, pairs[i].1)),
        count,
    )
}

/// The texts of a packet: its name under `name`, its byte order under
/// `endian`, and under `types` the pairs of its fields, in order.
pub open spec fn packet_texts(packet: GoPacketValueView) -> Map<Seq<Seq<char>>, Seq<char>> {
    map![seq!["name"@] => packet.name, seq!["endian"@] => packet.endian].union_prefer_right(
        under("types"@, pairs_texts(packet.types, packet.types.len())),
    )
}

/// The lists of a packet: the one under `types`, with an item for each
/// field.
pub open spec fn packet_lists(packet: GoPacketValueView) -> Map<Seq<Seq<char>>, nat> {
    map![seq!["types"@] => packet.types.len()]
}

/// One step further in, a value under the empty way lies under the step
/// alone.
proof fn lemma_under_single<V>(step: Seq<char>, value: V)
    ensures
        under(step, map![Seq::<Seq<char>>::empty() => value]) == map![seq![step] => value],
{
    let inner = map![Seq::<Seq<char>>::empty() => value];
    let left = under(step, inner);
    let right = map![seq![step] => value];
    assert forall|way: Seq<Seq<char>>| left.dom().contains(way) <==> right.dom().contains(
        way,
    ) by {
        if way.len() > 0 && way[0] == step {
            if way.skip(1) == Seq::<Seq<char>>::empty() {
                assert(way.skip(1).len() == 0);
                assert(way =~= seq![step]);
            }
            if way == seq![step] {
                assert(way.skip(1) =~= Seq::<Seq<char>>::empty());
            }
        }
        if way == seq![step] {
            assert(way.len() == 1 && way[0] == step);
        }
    }
    assert(left =~= right);
}

/// One step further in, nothing is nothing.
proof fn lemma_under_nothing<V>(step: Seq<char>)
    ensures
        under(step, Map::<Seq<Seq<char>>, V>::empty()) == Map::<Seq<Seq<char>>, V>::empty(),
{
    assert(under(step, Map::<Seq<Seq<char>>, V>::empty()) =~= Map::<Seq<Seq<char>>, V>::empty());
}

/// Parts that hold nothing hold nothing together.
proof fn lemma_gathered_nothing<V>(
    steps: Seq<Seq<char>>,
    parts: Seq<Map<Seq<Seq<char>>, V>>,
    count: nat,
)
    requires
        count <= parts.len(),
        forall|i: int| 0 <= i < count ==> parts[i] == Map::<Seq<Seq<char>>, V>::empty(),
    ensures
        gathered(steps, parts, count) == Map::<Seq<Seq<char>>, V>::empty(),
    decreases count,
{
    if count > 0 {
        lemma_gathered_nothing(steps, parts, (count - 1) as nat);
        lemma_under_nothing::<V>(steps[count - 1]);
        assert(gathered(steps, parts, count) =~= Map::<Seq<Seq<char>>, V>::empty());
    }
}

/// What is gathered depends on the first `count` steps and parts alone.
proof fn lemma_gathered_prefix<V>(
    steps: Seq<Seq<char>>,
    parts: Seq<Map<Seq<Seq<char>>, V>>,
    other_steps: Seq<Seq<char>>,
    other_parts: Seq<Map<Seq<Seq<char>>, V>>,
    count: nat,
)
    requires
        forall|i: int| 0 <= i < count ==> steps[i] == other_steps[i] && parts[i] == other_parts[i],
    ensures
        gathered(steps, parts, count) == gathered(other_steps, other_parts, count),
    decreases count,
{
    if count > 0 {
        lemma_gathered_prefix(steps, parts, other_steps, other_parts, (count - 1) as nat);
    }
}

/// In what the parts of a list hold together, what part `index` holds under
/// `way` lies under the numeral of `index` followed by `way`.
proof fn lemma_gathered_place<V>(
    steps: Seq<Seq<char>>,
    parts: Seq<Map<Seq<Seq<char>>, V>>,
    count: nat,
    index: int,
    way: Seq<Seq<char>>,
)
    requires
        0 <= index < count <= parts.len(),
        forall|i: int| 0 <= i < count ==> steps[i] == decimal(i as nat),
        parts[index].dom().contains(way),
    ensures
        gathered(steps, parts, count).dom().contains(seq![decimal(index as nat)] + way),
        gathered(steps, parts, count)[seq![decimal(index as nat)] + way] == parts[index][way],
    decreases count,
{
    let whole = seq![decimal(index as nat)] + way;
    assert(whole.skip(1) =~= way);
    if index < count - 1 {
        lemma_gathered_place(steps, parts, (count - 1) as nat, index, way);
        if whole[0] == steps[count - 1] {
            crate::text::lemma_decimal_is_injective(index as nat, (count - 1) as nat);
        }
    }
}

/// The way to a text of the pair of field `index` of a packet: `types`, the
/// numeral of `index`, and `key`.
pub open spec fn pair_way(index: nat, key: Seq<char>) -> Seq<Seq<char>> {
    seq!["types"@, decimal(index), key]
}

/// What a template finds in a packet: the name under `name`, the byte order
/// under `endian`, and for field `index` the exported name under `types`,
/// the numeral of `index` and `value1`, and the Go type under `types`, the
/// numeral of `index` and `value2`.
pub proof fn lemma_packet_holds_its_fields(packet: GoPacketValueView, index: int)
    requires
        0 <= index < packet.types.len(),
    ensures
        packet_texts(packet)[seq!["name"@]] == packet.name,
        packet_texts(packet)[seq!["endian"@]] == packet.endian,
        packet_texts(packet)[pair_way(index as nat, "value1"@)] == packet.types[index].0,
        packet_texts(packet)[pair_way(index as nat, "value2"@)] == packet.types[index].1,
{
    reveal_strlit("name");
    reveal_strlit("endian");
    reveal_strlit("types");
    reveal_strlit("value1");
    reveal_strlit("value2");
    assert("name"@.len() == 4 && "endian"@.len() == 6 && "types"@.len() == 5);
    assert("value1"@[5] != "value2"@[5]);
    let count = packet.types.len();
    let parts = Seq::new(count, |i: int| pair_texts(packet.types[i].0, packet.types[i].1));
    let listed = pairs_texts(packet.types, count);
    let first = seq!["value1"@];
    let second = seq!["value2"@];
    assert(first[0] != second[0]);
    assert(first != second);
    assert(parts[index] == pair_texts(packet.types[index].0, packet.types[index].1));
    assert(parts[index].dom().contains(first) && parts[index][first] == packet.types[index].0);
    assert(parts[index].dom().contains(second) && parts[index][second] == packet.types[index].1);
    lemma_gathered_place(places(count), parts, count, index, first);
    lemma_gathered_place(places(count), parts, count, index, second);
    let one = pair_way(index as nat, "value1"@);
    let two = pair_way(index as nat, "value2"@);
    assert(one.skip(1) =~= seq![decimal(index as nat)] + first);
    assert(two.skip(1) =~= seq![decimal(index as nat)] + second);
    assert(under("types"@, listed).dom().contains(one));
    assert(under("types"@, listed).dom().contains(two));
    assert(!under("types"@, listed).dom().contains(seq!["name"@]));
    assert(!under("types"@, listed).dom().contains(seq!["endian"@]));
}

/// The texts of what a template is given: under `packets`, the packets in
/// order, each under the numeral of its place.
pub open spec fn context_texts(context: Seq<GoPacketValueView>) -> Map<
    Seq<Seq<char>>,
    Seq<char>,
> {
    under(
        "packets"@,
        gathered(
            places(context.len()),
            Seq::new(context.len(), |i: int| packet_texts(context[i])),
            context.len(),
        ),
    )
}

/// The lists of what a template is given: the list of the packets, under
/// `packets`, and the lists of each packet.
pub open spec fn context_lists(context: Seq<GoPacketValueView>) -> Map<Seq<Seq<char>>, nat> {
    under(
        "packets"@,
        gathered(
            places(context.len()),
            Seq::new(context.len(), |i: int| packet_lists(context[i])),
            context.len(),
        ).insert(Seq::empty(), context.len()),
    )
}

/// What becomes of the outcome of a rendering: the text where there is one,
/// a template error otherwise.
pub open spec fn outcome_result(
    outcome: Result<String, tera::Error>,
    result: Result<String, GenerateError>,
) -> bool {
    match outcome {
        Ok(text) => result == Ok::<String, GenerateError>(text),
        Err(_) => result matches Err(GenerateError::Template { .. }),
    }
}

/// `render` was called once, on a value that holds `context`, and `result`
/// is what becomes of the outcome of that call.
pub open spec fn rendered_by<F: FnOnce(tera::Value) -> Result<String, tera::Error>>(
    render: F,
    context: Seq<GoPacketValueView>,
    result: Result<String, GenerateError>,
) -> bool {
    exists|value: tera::Value, outcome: Result<String, tera::Error>|
        {
            &&& value_texts(value) == context_texts(context)
            &&& value_lists(value) == context_lists(context)
            &&& #[trigger] call_ensures(render, (value,), outcome)
            &&& outcome_result(outcome, result)
        }
}

/// What a template is told of one packet.
#[derive(Debug, Clone, PartialEq, Eq)]
pub struct GoPacketValue {
    pub name: String,
    pub endian: String,
    pub types: Vec<TwoStringValue>,
}

/// What a template is told: the packets, in source order.
#[derive(Debug, Clone, PartialEq, Eq)]
pub struct GoPacketRenderContext {
    pub packets: Vec<GoPacketValue>,
}

/// [`GoPacketValue`] with its texts as sequences of characters.
pub struct GoPacketValueView {
    pub name: Seq<char>,
    pub endian: Seq<char>,
    pub types: Seq<(Seq<char>, Seq<char>)>,
}

/// The views of a list of pairs of strings.
pub open spec fn pair_views(pairs: Seq<TwoStringValue>) -> Seq<(Seq<char>, Seq<char>)> {
    Seq::new(pairs.len(), |i: int| (pairs[i].value1@, pairs[i].value2@))
}

impl View for GoPacketValue {
    type V = GoPacketValueView;

    open spec fn view(&self) -> GoPacketValueView {
        GoPacketValueView {
            name: self.name@,
            endian: self.endian@,
            types: pair_views(self.types@),
        }
    }
}

impl View for GoPacketRenderContext {
    type V = Seq<GoPacketValueView>;

    open spec fn view(&self) -> Seq<GoPacketValueView> {
        Seq::new(self.packets.len() as nat, |i: int| self.packets[i]@)
    }
}

/// Name of the type `primitive` in Go. A MAC address has none.
pub open spec fn go_primitive(primitive: PrimitiveType) -> Seq<char> {
    match primitive {
        PrimitiveType::Int8 => "int8"@,
        PrimitiveType::UInt8 => "uint8"@,
        PrimitiveType::Int16 => "int16"@,
        PrimitiveType::UInt16 => "uint16"@,
        PrimitiveType::Int32 => "int32"@,
        PrimitiveType::UInt32 => "uint32"@,
        PrimitiveType::Int64 => "int64"@,
        PrimitiveType::UInt64 => "uint64"@,
        PrimitiveType::Float32 => "float32"@,
        PrimitiveType::Float64 => "float64"@,
        PrimitiveType::MacAddress => Seq::empty(),
    }
}

/// The Go type of a field: the element's type, as a slice where the field is
/// an array.
pub open spec fn go_type(node: TypeNode) -> Seq<char> {
    if node.array_length() is Some {
        "[]"@ + go_primitive(node.primitive())
    } else {
        go_primitive(node.primitive())
    }
}

/// The exported name and the Go type of each of the first `count` fields.
pub open spec fn go_types(fields: Seq<TypeExprView>, count: nat) -> Seq<(Seq<char>, Seq<char>)> {
    Seq::new(count, |i: int| (capitalized(fields[i].id), go_type(fields[i].expr)))
}

/// What a template is told of `packet`, or why the packet cannot be emitted.
pub open spec fn go_packet(packet: PacketExprView) -> Result<GoPacketValueView, GenerateErrorView> {
    match codec_of(packet, Endianness::Little) {
        Err(error) => Err(GenerateErrorView::Codec(error)),
        Ok(_) => match unsupported_from(packet.fields, 0) {
            Some(index) => Err(
                GenerateErrorView::UnsupportedField {
                    packet: packet.name,
                    field: packet.fields[index as int].id,
                },
            ),
            None => Ok(
                GoPacketValueView {
                    name: packet.name,
                    endian: "little"@,
                    types: go_types(packet.fields, packet.fields.len()),
                },
            ),
        },
    }
}

/// What a template is told of packet `index` of a definition file. A packet
/// whose name an earlier packet has cannot be emitted.
pub open spec fn go_unit_packet(packets: Seq<PacketExprView>, index: int) -> Result<
    GoPacketValueView,
    GenerateErrorView,
> {
    if name_taken(packets, index) {
        Err(
            GenerateErrorView::Codec(
                CodecErrorView::DuplicateIdentifier {
                    packet: packets[index].name,
                    identifier: packets[index].name,
                },
            ),
        )
    } else {
        go_packet(packets[index])
    }
}

/// What a template is told of the first `count` packets, or the error of the
/// first one that cannot be emitted.
pub open spec fn go_context(packets: Seq<PacketExprView>, count: nat) -> Result<
    Seq<GoPacketValueView>,
    GenerateErrorView,
>
    decreases count,
{
    if count == 0 {
        Ok(Seq::empty())
    } else {
        match go_context(packets, (count - 1) as nat) {
            Ok(before) => match go_unit_packet(packets, count - 1) {
                Ok(packet) => Ok(before.push(packet)),
                Err(error) => Err(error),
            },
            Err(error) => Err(error),
        }
    }
}

proof fn lemma_go_error_stays(packets: Seq<PacketExprView>, count: nat)
    requires
        count <= packets.len(),
        go_context(packets, count) is Err,
    ensures
        go_context(packets, packets.len()) == go_context(packets, count),
    decreases packets.len() - count,
{
    if count < packets.len() {
        lemma_go_error_stays(packets, count + 1);
    }
}

/// A template is told nothing of a list of packets where, in one of them, an
/// aggregate stands in the expression that gives a calculated field its
/// value.
pub proof fn lemma_aggregate_gives_no_context(packets: Seq<PacketExprView>, at: int, index: int)
    requires
        0 <= at < packets.len(),
        0 <= index < packets[at].calculated_fields.len(),
        holds_aggregate(governing_expr(packets[at].calculated_fields[index])),
    ensures
        go_context(packets, packets.len()) is Err,
{
    lemma_aggregate_has_no_codec(packets[at], index, Endianness::Little);
    lemma_go_error_stays(packets, (at + 1) as nat);
}

/// The view of the context, or of the error.
pub open spec fn context_view(result: Result<GoPacketRenderContext, GenerateError>) -> Result<
    Seq<GoPacketValueView>,
    GenerateErrorView,
> {
    match result {
        Ok(context) => Ok(context@),
        Err(error) => Err(error@),
    }
}

/// The emitter for Go.
#[derive(Debug, Clone, Copy, PartialEq, Eq)]
pub struct GoGenerator {}

impl GoGenerator {
    /// Name of the type `primitive` in Go.
    fn primitive_name(primitive: PrimitiveType) -> (name: &'static str)
        ensures
            name@ == go_primitive(primitive),
    {
        match primitive {
            PrimitiveType::Int8 => "int8",
            PrimitiveType::UInt8 => "uint8",
            PrimitiveType::Int16 => "int16",
            PrimitiveType::UInt16 => "uint16",
            PrimitiveType::Int32 => "int32",
            PrimitiveType::UInt32 => "uint32",
            PrimitiveType::Int64 => "int64",
            PrimitiveType::UInt64 => "uint64",
            PrimitiveType::Float32 => "float32",
            PrimitiveType::Float64 => "float64",
            PrimitiveType::MacAddress => {
                proof {
                    reveal_strlit("");
                }
                ""
            },
        }
    }

    /// For each field of `packet_expr`, its exported name (the field's name
    /// with a capital first letter) and its Go type.
    pub fn get_go_types(packet_expr: &PacketExpr) -> (types: Vec<TwoStringValue>)
        ensures
            pair_views(types@) == go_types(packet_expr@.fields, packet_expr@.fields.len()),
    {
        let mut str_vec: Vec<TwoStringValue> = Vec::new();
        let mut i: usize = 0;
        while i < packet_expr.fields.len()
            invariant
                i <= packet_expr.fields.len(),
                pair_views(str_vec@) == go_types(packet_expr@.fields, i as nat),
            decreases packet_expr.fields.len() - i,
        {
            let field = &packet_expr.fields[i];
            let mut result = String::new();
            if field.expr.get_array_length().is_some() {
                result.append("[]");
            }
            result.append(Self::primitive_name(field.expr.get_primitive()));
            let name = capitalize_first(field.id.as_str());
            let ghost before = pair_views(str_vec@);
            str_vec.push(TwoStringValue { value1: name, value2: result });
            assert(pair_views(str_vec@) =~= before.push((name@, result@)));
            i += 1;
        }
        str_vec
    }

    /// What the template is told of the packets of `packet_list`. A packet
    /// that has no codec description, or a field that is a MAC address,
    /// makes the whole fail.
    pub fn expr_list_to_rendered(packet_list: &PacketExprList) -> (result: Result<
        GoPacketRenderContext,
        GenerateError,
    >)
        ensures
            context_view(result) == go_context(packet_list@, packet_list@.len()),
    {
        let ghost views = packet_list@;
        let mut value_vec: Vec<GoPacketValue> = Vec::new();
        assert(Seq::new(value_vec.len() as nat, |k: int| value_vec[k]@) =~= Seq::<
            GoPacketValueView,
        >::empty());
        let mut i: usize = 0;
        while i < packet_list.packets.len()
            invariant
                i <= packet_list.packets.len(),
                views == packet_list@,
                go_context(views, i as nat) == Ok::<Seq<GoPacketValueView>, GenerateErrorView>(
                    Seq::new(value_vec.len() as nat, |k: int| value_vec[k]@),
                ),
            decreases packet_list.packets.len() - i,
        {
            let packet = &packet_list.packets[i];
            let failure: Option<GenerateError> = match build_unit_codec(
                &packet_list.packets,
                i,
                Endianness::Little,
            ) {
                Err(error) => Some(GenerateError::Codec(error)),
                Ok(_) => match crate::generators::find_unsupported(packet) {
                    Some(field) => Some(
                        GenerateError::UnsupportedField { packet: packet.name.clone(), field },
                    ),
                    None => None,
                },
            };
            match failure {
                Some(error) => {
                    proof {
                        lemma_go_error_stays(views, (i + 1) as nat);
                    }
                    return Err(error);
                },
                None => {},
            }
            let ghost before = Seq::new(value_vec.len() as nat, |k: int| value_vec[k]@);
            let value = GoPacketValue {
                name: packet.name.clone(),
                endian: String::from_str("little"),
                types: Self::get_go_types(packet),
            };
            let ghost view = value@;
            value_vec.push(value);
            assert(Seq::new(value_vec.len() as nat, |k: int| value_vec[k]@) =~= before.push(view));
            i += 1;
        }
        let context = GoPacketRenderContext { packets: value_vec };
        Ok(context)
    }

    /// The template value of one pair of strings: a record with the keys
    /// `value1` and `value2`.
    fn pair_value(pair: &TwoStringValue) -> (value: tera::Value)
        ensures
            value_texts(value) == pair_texts(pair.value1@, pair.value2@),
            value_lists(value) == no_lists(),
    {
        let mut keys: Vec<String> = Vec::new();
        let mut values: Vec<tera::Value> = Vec::new();
        keys.push(String::from_str("value1"));
        values.push(text_value(&pair.value1));
        keys.push(String::from_str("value2"));
        values.push(text_value(&pair.value2));
        proof {
            reveal_strlit("value1");
            reveal_strlit("value2");
            let steps = string_views(keys@);
            assert(steps[0] == "value1"@ && steps[1] == "value2"@);
            assert("value1"@[5] != "value2"@[5]);
            assert(all_differ(steps));
            let texts = texts_of(values@);
            assert(texts[0] == leaf(pair.value1@) && texts[1] == leaf(pair.value2@));
            reveal_with_fuel(gathered, 3);
            lemma_under_single("value1"@, pair.value1@);
            lemma_under_single("value2"@, pair.value2@);
            assert(gathered(steps, texts, 2) =~= pair_texts(pair.value1@, pair.value2@));
            lemma_gathered_nothing(steps, lists_of(values@), 2);
        }
        record_value(keys, values)
    }

    /// The template value of one packet: a record with the keys `name`,
    /// `endian` and `types`, the last a list with the pair of each field.
    fn packet_value(packet: &GoPacketValue) -> (value: tera::Value)
        ensures
            value_texts(value) == packet_texts(packet@),
            value_lists(value) == packet_lists(packet@),
    {
        let mut types: Vec<tera::Value> = Vec::new();
        let mut i: usize = 0;
        while i < packet.types.len()
            invariant
                i <= packet.types.len(),
                types.len() == i,
                forall|k: int|
                    0 <= k < i ==> value_texts(#[trigger] types[k]) == pair_texts(
                        packet.types[k].value1@,
                        packet.types[k].value2@,
                    ),
                forall|k: int| 0 <= k < i ==> value_lists(#[trigger] types[k]) == no_lists(),
            decreases packet.types.len() - i,
        {
            types.push(Self::pair_value(&packet.types[i]));
            i += 1;
        }
        let ghost count = packet.types.len() as nat;
        let ghost pairs = packet@.types;
        proof {
            lemma_gathered_prefix(
                places(count),
                texts_of(types@),
                places(count),
                Seq::new(count, |k: int| pair_texts(pairs[k].0, pairs[k].1)),
                count,
            );
            lemma_gathered_nothing(places(count), lists_of(types@), count);
        }
        let listed = list_value(types);
        assert(value_texts(listed) == pairs_texts(pairs, count));
        assert(value_lists(listed) == map![Seq::<Seq<char>>::empty() => count]);
        let mut keys: Vec<String> = Vec::new();
        let mut values: Vec<tera::Value> = Vec::new();
        keys.push(String::from_str("name"));
        values.push(text_value(&packet.name));
        keys.push(String::from_str("endian"));
        values.push(text_value(&packet.endian));
        keys.push(String::from_str("types"));
        values.push(listed);
        proof {
            reveal_strlit("name");
            reveal_strlit("endian");
            reveal_strlit("types");
            let steps = string_views(keys@);
            assert(steps[0] == "name"@ && steps[1] == "endian"@ && steps[2] == "types"@);
            assert("name"@.len() == 4 && "endian"@.len() == 6 && "types"@.len() == 5);
            assert(all_differ(steps));
            let texts = texts_of(values@);
            assert(texts[0] == leaf(packet.name@) && texts[1] == leaf(packet.endian@) && texts[2]
                == pairs_texts(pairs, count));
            let lists = lists_of(values@);
            assert(lists[0] == no_lists() && lists[1] == no_lists() && lists[2]
                == map![Seq::<Seq<char>>::empty() => count]);
            reveal_with_fuel(gathered, 4);
            lemma_under_single("name"@, packet.name@);
            lemma_under_single("endian"@, packet.endian@);
            lemma_under_single("types"@, count);
            lemma_under_nothing::<nat>("name"@);
            lemma_under_nothing::<nat>("endian"@);
            assert(gathered(steps, texts, 3) =~= packet_texts(packet@));
            assert(gathered(steps, lists, 3) =~= packet_lists(packet@));
        }
        record_value(keys, values)
    }

    /// The value that a template is given: a record with the one key
    /// `packets`, which names the list of the packets of `rendered`.
    pub fn context_value(rendered: &GoPacketRenderContext) -> (value: tera::Value)
        ensures
            value_texts(value) == context_texts(rendered@),
            value_lists(value) == context_lists(rendered@),
    {
        let mut packets: Vec<tera::Value> = Vec::new();
        let mut i: usize = 0;
        while i < rendered.packets.len()
            invariant
                i <= rendered.packets.len(),
                packets.len() == i,
                forall|k: int|
                    0 <= k < i ==> value_texts(#[trigger] packets[k]) == packet_texts(
                        rendered.packets[k]@,
                    ),
                forall|k: int|
                    0 <= k < i ==> value_lists(#[trigger] packets[k]) == packet_lists(
                        rendered.packets[k]@,
                    ),
            decreases rendered.packets.len() - i,
        {
            packets.push(Self::packet_value(&rendered.packets[i]));
            i += 1;
        }
        let ghost count = rendered.packets.len() as nat;
        let ghost context = rendered@;
        proof {
            lemma_gathered_prefix(
                places(count),
                texts_of(packets@),
                places(count),
                Seq::new(count, |k: int| packet_texts(context[k])),
                count,
            );
            lemma_gathered_prefix(
                places(count),
                lists_of(packets@),
                places(count),
                Seq::new(count, |k: int| packet_lists(context[k])),
                count,
            );
        }
        let listed = list_value(packets);
        let mut keys: Vec<String> = Vec::new();
        let mut values: Vec<tera::Value> = Vec::new();
        keys.push(String::from_str("packets"));
        values.push(listed);
        proof {
            let steps = string_views(keys@);
            assert(steps[0] == "packets"@);
            assert(all_differ(steps));
            let texts = texts_of(values@);
            let lists = lists_of(values@);
            assert(texts[0] == value_texts(listed) && lists[0] == value_lists(listed));
            reveal_with_fuel(gathered, 2);
            assert(gathered(steps, texts, 1) =~= context_texts(context));
            assert(gathered(steps, lists, 1) =~= context_lists(context));
        }
        record_value(keys, values)
    }

    /// What becomes of the outcome of a rendering: the text where Tera gave
    /// one, a template error with Tera's message otherwise.
    pub fn render_outcome(outcome: Result<String, tera::Error>) -> (result: Result<
        String,
        GenerateError,
    >)
        ensures
            outcome_result(outcome, result),
    {
        match outcome {
            Ok(text) => Ok(text),
            Err(error) => Err(GenerateError::Template { message: error_text(&error) }),
        }
    }

    /// The Go source text for the packets of `packet_list`, as `render` makes
    /// it. `render` is called once, on the value of
    /// [`GoGenerator::context_value`]: under the name `packets` a list with,
    /// for each packet, its `name`, its `endian` and its `types`, each of
    /// these a pair of `value1` (the field's exported name) and `value2` (its
    /// Go type). It is for `render` to call Tera on a template with that
    /// value.
    ///
    /// Where the packets cannot be emitted the error says why and `render`
    /// is not called. Otherwise the result is the text that `render` gave,
    /// or a template error where it gave an error.
    pub fn generate<F: FnOnce(tera::Value) -> Result<String, tera::Error>>(
        packet_list: &PacketExprList,
        render: F,
    ) -> (result: Result<String, GenerateError>)
        requires
            forall|value: tera::Value| #[trigger] call_requires(render, (value,)),
        ensures
            match go_context(packet_list@, packet_list@.len()) {
                Err(error) => result matches Err(e) && e@ == error,
                Ok(context) => rendered_by(render, context, result),
            },
    {
        let rendered = match Self::expr_list_to_rendered(packet_list) {
            Ok(rendered) => rendered,
            Err(error) => { return Err(error); },
        };
        let value = Self::context_value(&rendered);
        let ghost handed = value;
        let outcome = render(value);
        let result = Self::render_outcome(outcome);
        assert(call_ensures(render, (handed,), outcome));
        result
    }
}

} // verus!
