//! The Atomicals reveal script: a Taproot leaf that checks the owner's
//! signature and carries the operation and its payload in an `OP_IF` envelope.

use vstd::prelude::*;
use vstd::slice::slice_subrange;
use vstd::utf8::encode_utf8;
use crate::chain::{push_encoding, push_slice};

verus! {

/// Errors of script building.
#[derive(Debug)]
pub enum Error {
    Script(String),
    Other(String),
}

/// Largest data push that scripts allow.
pub const MAX_PUSH: usize = 520;

/// Pushes of `p` from byte `i` on, in pieces of at most 520 bytes.
pub open spec fn chunk_pushes_from(p: Seq<u8>, i: int) -> Seq<u8>
    decreases p.len() - i,
{
    if i < 0 || i >= p.len() {
        Seq::empty()
    } else if p.len() - i <= 520 {
        push_encoding(p.subrange(i, p.len() as int))
    } else {
        push_encoding(p.subrange(i, i + 520)) + chunk_pushes_from(p, i + 520)
    }
}

/// The pieces, of at most 520 bytes, that `p` is pushed in from byte `i` on.
pub open spec fn payload_chunks(p: Seq<u8>, i: int) -> Seq<Seq<u8>>
    decreases p.len() - i,
{
    if i < 0 || i >= p.len() {
        Seq::empty()
    } else if p.len() - i <= 520 {
        seq![p.subrange(i, p.len() as int)]
    } else {
        seq![p.subrange(i, i + 520)] + payload_chunks(p, i + 520)
    }
}

/// The pieces put back together.
pub open spec fn joined(c: Seq<Seq<u8>>) -> Seq<u8>
    decreases c.len(),
{
    if c.len() == 0 {
        Seq::empty()
    } else {
        c[0] + joined(c.drop_first())
    }
}

/// The pushes of the pieces, one after another.
pub open spec fn pushes_of(c: Seq<Seq<u8>>) -> Seq<u8>
    decreases c.len(),
{
    if c.len() == 0 {
        Seq::empty()
    } else {
        push_encoding(c[0]) + pushes_of(c.drop_first())
    }
}

/// A payload carried in a script can be read back: it is pushed as pieces
/// of 1 to 520 bytes, one push each, and the pieces put together are the payload.
pub proof fn law_payload_chunks_reassemble(p: Seq<u8>)
    ensures
        joined(payload_chunks(p, 0)) == p,
        pushes_of(payload_chunks(p, 0)) == chunk_pushes_from(p, 0),
        forall|k: int| 0 <= k < payload_chunks(p, 0).len()
            ==> 0 < #[trigger] payload_chunks(p, 0)[k].len() <= 520,
{
    lemma_payload_chunks_from(p, 0);
    assert(p.subrange(0, p.len() as int) =~= p);
}

/// `law_payload_chunks_reassemble` from byte `i` on.
proof fn lemma_payload_chunks_from(p: Seq<u8>, i: int)
    requires
        0 <= i <= p.len(),
    ensures
        joined(payload_chunks(p, i)) == p.subrange(i, p.len() as int),
        pushes_of(payload_chunks(p, i)) == chunk_pushes_from(p, i),
        forall|k: int| 0 <= k < payload_chunks(p, i).len()
            ==> 0 < #[trigger] payload_chunks(p, i)[k].len() <= 520,
    decreases p.len() - i,
{
    let c = payload_chunks(p, i);
    if i == p.len() {
        assert(p.subrange(i, p.len() as int) =~= Seq::<u8>::empty());
    } else if p.len() - i <= 520 {
        assert(c.drop_first() =~= Seq::<Seq<u8>>::empty());
        assert(joined(c.drop_first()) == Seq::<u8>::empty());
        assert(pushes_of(c.drop_first()) == Seq::<u8>::empty());
        assert(c[0] == p.subrange(i, p.len() as int));
        assert(joined(c) =~= p.subrange(i, p.len() as int));
        assert(pushes_of(c) =~= push_encoding(p.subrange(i, p.len() as int)));
    } else {
        lemma_payload_chunks_from(p, i + 520);
        assert(c.drop_first() =~= payload_chunks(p, i + 520));
        assert(joined(c) =~= p.subrange(i, p.len() as int));
        assert forall|k: int| 0 <= k < c.len() implies 0 < #[trigger] c[k].len() <= 520 by {
            if k > 0 {
                assert(c[k] == payload_chunks(p, i + 520)[k - 1]);
            }
        }
    }
}

/// The envelope marker, "atom".
pub open spec fn atom_marker() -> Seq<u8> {
    seq![0x61u8, 0x74u8, 0x6fu8, 0x6du8]
}

/// The reveal script for operation `op` (as bytes), internal key `key` and
/// `payload`: `<key> OP_CHECKSIG OP_0 OP_IF "atom" <op> <payload pieces> OP_ENDIF`.
pub open spec fn reveal_script(op: Seq<u8>, key: Seq<u8>, payload: Seq<u8>) -> Seq<u8> {
    push_encoding(key) + seq![0xacu8, 0x00u8, 0x63u8] + push_encoding(atom_marker()) + push_encoding(op)
        + chunk_pushes_from(payload, 0) + seq![0x68u8]
}

/// Appends the pushes of `payload` in pieces of at most 520 bytes.
pub fn push_chunks(script: &mut Vec<u8>, payload: &[u8])
    ensures
        final(script)@ == old(script)@ + chunk_pushes_from(payload@, 0),
{
    let n = payload.len();
    let mut i: usize = 0;
    while i < n
        invariant
            n == payload@.len(),
            i <= n,
            script@ + chunk_pushes_from(payload@, i as int) == old(script)@ + chunk_pushes_from(payload@, 0),
        decreases n - i,
    {
        let end = if n - i <= MAX_PUSH { n } else { i + MAX_PUSH };
        let chunk = slice_subrange(payload, i, end);
        let ghost before = script@;
        push_slice(script, chunk);
        proof {
            assert(chunk@ == payload@.subrange(i as int, end as int));
            if n - i > 520 {
                assert(script@ + chunk_pushes_from(payload@, end as int) =~= before + chunk_pushes_from(payload@, i as int));
            } else {
                assert(chunk_pushes_from(payload@, end as int) == Seq::<u8>::empty());
                assert(script@ + chunk_pushes_from(payload@, end as int) =~= before + chunk_pushes_from(payload@, i as int));
            }
        }
        i = end;
    }
    proof {
        assert(chunk_pushes_from(payload@, i as int) == Seq::<u8>::empty());
        assert(script@ =~= script@ + chunk_pushes_from(payload@, i as int));
    }
}

/// Builds the reveal script of operation `op_type` for the internal key
/// `child_node_xonly_pubkey`, carrying `payload`.
pub fn append_mint_update_reveal_script(op_type: &str, child_node_xonly_pubkey: &[u8; 32], payload: &[u8]) -> (r: Result<Vec<u8>, Error>)
    requires
        encode_utf8(op_type@).len() < 0x1_0000_0000,
    ensures
        r matches Ok(s) && s@ == reveal_script(encode_utf8(op_type@), child_node_xonly_pubkey@, payload@),
{
    let mut script: Vec<u8> = Vec::new();
    push_slice(&mut script, child_node_xonly_pubkey.as_slice());
    script.push(0xac);
    script.push(0x00);
    script.push(0x63);
    let marker: [u8; 4] = [0x61, 0x74, 0x6f, 0x6d];
    proof {
        assert(marker@ =~= atom_marker());
    }
    push_slice(&mut script, marker.as_slice());
    push_slice(&mut script, op_type.as_bytes());
    push_chunks(&mut script, payload);
    script.push(0x68);
    proof {
        assert(script@ =~= reveal_script(encode_utf8(op_type@), child_node_xonly_pubkey@, payload@));
    }
    Ok(script)
}

} // verus!
