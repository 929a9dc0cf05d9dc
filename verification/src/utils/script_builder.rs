//! The OP_RETURN output that carries an Atomicals payload.

use vstd::prelude::*;
use crate::errors::Result;
use crate::utils::script::{chunk_pushes_from, push_chunks};

verus! {

/// `OP_RETURN`, the marker "atom" and the version byte 1, then the pushes of
/// the payload's JSON bytes in pieces of at most 520 bytes.
pub open spec fn op_return_script(payload_json: Seq<u8>) -> Seq<u8> {
    seq![0x6au8, 0x61u8, 0x74u8, 0x6fu8, 0x6du8, 0x01u8] + chunk_pushes_from(payload_json, 0)
}

/// Builds the OP_RETURN output script for a payload already written as JSON:
/// `OP_RETURN`, "atom", version 1, then the JSON in pushes of at most 520 bytes.
pub fn build_atomicals_op_return(payload_json: &[u8]) -> (r: Result<Vec<u8>>)
    ensures
        r matches Ok(s) && s@ == op_return_script(payload_json@),
{
    let mut script: Vec<u8> = Vec::new();
    script.push(0x6a);
    script.push(0x61);
    script.push(0x74);
    script.push(0x6f);
    script.push(0x6d);
    script.push(0x01);
    push_chunks(&mut script, payload_json);
    proof {
        assert(script@ =~= op_return_script(payload_json@));
    }
    Ok(script)
}

} // verus!
