//! The passes in order: parse the text, then describe each packet.

use crate::codec::Endianness;
use crate::ir::{
    build_codecs, codec_result_view, unit_codec_of, CodecError, PacketCodec,
};
use crate::parser::{parse_file, parse_outcome, ParseError};
use vstd::prelude::*;

verus! {

/// Compiles the text of a definition file: parses it, and describes each of
/// its packets with every slot in the byte order `order`.
///
/// A text that does not parse gives the parse error and nothing else. A text
/// that parses gives one outcome for each packet, in source order: the
/// packet's codec description, or why that packet has none.
pub fn compile(input: &String, order: Endianness) -> (result: Result<
    Vec<Result<PacketCodec, CodecError>>,
    ParseError,
>)
    ensures
        match result {
            Ok(outcomes) => {
                &&& parse_outcome(vstd::utf8::encode_utf8(input@)) matches Ok(packets)
                &&& outcomes.len() == packets.len()
                &&& forall|i: int|
                    0 <= i < outcomes.len() ==> codec_result_view(#[trigger] outcomes[i])
                        == unit_codec_of(packets, i, order)
            },
            Err(error) => parse_outcome(vstd::utf8::encode_utf8(input@)) == Err::<
                Seq<crate::models::parsing_models::PacketExprView>,
                crate::parser::ParseErrorView,
            >(error@),
        },
{
    match parse_file(input) {
        Ok(packets) => {
            Ok(build_codecs(&packets, order))
        },
        Err(error) => Err(error),
    }
}

} // verus!
