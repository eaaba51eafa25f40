use vstd::prelude::*;
use vstd::utf8::*;

use crate::arena::{span, Arena};
use crate::codec::{encode_text, json_quoted, reads_back, text_to_bytes};
use crate::error::WasmError;

verus! {

broadcast use vstd::utf8::group_utf8_lib;

/// A buffer handed to the host: where it starts in the arena, and its exact length.
#[derive(Debug, Clone, Copy, PartialEq, Eq, Structural)]
pub struct Published {
    pub addr: u64,
    pub len: usize,
}

/// What an entry point returns: its status (zero for success), and the buffer it published,
/// if any, which the host reads and then releases.
#[derive(Debug, Clone, Copy, PartialEq, Eq, Structural)]
pub struct ExportReturn {
    pub status: i32,
    pub output: Option<Published>,
}

/// The text that crosses the boundary for a business result: the success text, or the error's
/// message.
pub open spec fn result_text(res: Result<String, WasmError>) -> Seq<char> {
    match res {
        Ok(s) => s@,
        Err(e) => e.msg@,
    }
}

/// The bytes published for a business result: its text in interchange form, as UTF-8.
pub open spec fn published_bytes(res: Result<String, WasmError>) -> Seq<u8> {
    encode_utf8(json_quoted(result_text(res)))
}

/// How publishing `res` turns an arena with live blocks `before` and the given frontier into
/// `after`, returning `r`.
pub open spec fn publishes(
    before: Map<u64, Seq<u8>>,
    frontier: nat,
    after: Map<u64, Seq<u8>>,
    res: Result<String, WasmError>,
    r: ExportReturn,
) -> bool {
    let bytes = published_bytes(res);
    &&& frontier + span(bytes.len()) <= u64::MAX ==> r.output is Some
    &&& match r.output {
        Some(p) => {
            &&& p.addr == frontier
            &&& !before.contains_key(p.addr)
            &&& p.len == bytes.len()
            &&& after == before.insert(p.addr, bytes)
            &&& r.status == if res is Ok {
                0i32
            } else {
                1i32
            }
        },
        None => r.status == 1 && after == before,
    }
}

/// Publishes a business result: encodes its text into the interchange format, allocates a
/// buffer of exactly that many bytes, and fills it. Status zero for success, one for an error;
/// where no buffer can be had, status one and nothing published.
pub fn publish_result(arena: &mut Arena, res: Result<String, WasmError>) -> (r: ExportReturn)
    requires
        old(arena).wf(),
    ensures
        final(arena).wf(),
        publishes(old(arena)@, old(arena).frontier(), final(arena)@, res, r),
{
    let ghost res0 = res;
    let (text, status) = match res {
        Ok(s) => (s, 0i32),
        Err(e) => (e.msg, 1i32),
    };
    let encoded = encode_text(text.as_str());
    let bytes = text_to_bytes(encoded.as_str());
    assert(bytes@ == published_bytes(res0));
    let len = bytes.len();
    let ghost before = arena@;
    assert(status == if res0 is Ok {
        0i32
    } else {
        1i32
    });
    match arena.allocate(len) {
        Ok(addr) => {
            let ghost content = bytes@;
            let w = arena.write(addr, bytes);
            assert(w is Ok);
            assert(arena@ =~= before.insert(addr, content));
            ExportReturn { status, output: Some(Published { addr, len }) }
        },
        Err(_) => ExportReturn { status: 1, output: None },
    }
}

/// The entry point that stands for a business function `f`: with no decoded request it fails
/// fast with status one, publishes nothing and never calls `f`; otherwise it calls `f` once
/// and publishes what `f` returned.
pub fn run_export<Req, F>(arena: &mut Arena, decoded: Option<Req>, f: F) -> (r: ExportReturn) where
    F: FnOnce(Req) -> Result<String, WasmError>,

    requires
        old(arena).wf(),
        decoded matches Some(q) ==> f.requires((q,)),
    ensures
        final(arena).wf(),
        decoded is None ==> r.status == 1 && r.output is None && final(arena)@ == old(arena)@,
        decoded matches Some(q) ==> exists|res: Result<String, WasmError>|
            f.ensures((q,), res) && publishes(
                old(arena)@,
                old(arena).frontier(),
                final(arena)@,
                res,
                r,
            ),
{
    match decoded {
        None => ExportReturn { status: 1, output: None },
        Some(q) => {
            let res = f(q);
            publish_result(arena, res)
        },
    }
}

/// On success the published buffer holds the interchange form of the success text: read as
/// UTF-8 it is that quoted literal, and decoding the literal once gives the text back. Where
/// the text is itself interchange data, the host thus decodes twice.
pub proof fn lemma_success_double_encoded(
    before: Map<u64, Seq<u8>>,
    frontier: nat,
    after: Map<u64, Seq<u8>>,
    s: String,
    r: ExportReturn,
    out: Option<Seq<char>>,
)
    requires
        publishes(before, frontier, after, Ok(s), r),
        r.output is Some,
        reads_back(decode_utf8(after[r.output->0.addr]), out),
    ensures
        r.status == 0,
        decode_utf8(after[r.output->0.addr]) == json_quoted(s@),
        out == Some(s@),
{
}

/// On failure the published buffer decodes once, directly, to the error's message.
pub proof fn lemma_failure_single_encoded(
    before: Map<u64, Seq<u8>>,
    frontier: nat,
    after: Map<u64, Seq<u8>>,
    e: WasmError,
    r: ExportReturn,
    out: Option<Seq<char>>,
)
    requires
        publishes(before, frontier, after, Err(e), r),
        r.output is Some,
        reads_back(decode_utf8(after[r.output->0.addr]), out),
    ensures
        r.status == 1,
        out == Some(e.msg@),
{
}

/// Status zero exactly when a buffer was published for a success; a status of one means either
/// that nothing was published or that the buffer holds an error message.
pub proof fn lemma_status_fidelity(
    before: Map<u64, Seq<u8>>,
    frontier: nat,
    after: Map<u64, Seq<u8>>,
    res: Result<String, WasmError>,
    r: ExportReturn,
)
    requires
        publishes(before, frontier, after, res, r),
    ensures
        r.status == 0 <==> (r.output is Some && res is Ok),
        r.status == 0 || r.status == 1,
        r.status == 1 ==> (r.output is None || res is Err),
        r.output is None ==> after == before,
{
}

} // verus!
