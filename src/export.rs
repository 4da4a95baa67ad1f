//! What the two export commands write, and where.

use vstd::prelude::*;
use sp_core::storage::Storage;
use crate::genesis::{code_key_spec, extract_genesis_wasm, missing_code_message, top_of};
use crate::hex::{artifact_text, render_artifact};

verus! {

/// Where an export's bytes go.
#[derive(Debug, Clone)]
pub enum Destination {
    /// Standard output.
    Stdout,
    /// The file at this path, created or replaced.
    File(String),
}

/// An export ready to be written: every byte of `contents` goes to
/// `destination`, and nothing goes anywhere else.
#[derive(Debug, Clone)]
pub struct ExportPlan {
    pub destination: Destination,
    pub contents: Vec<u8>,
}

/// The destination that `--output` selects: the named file, else standard output.
pub open spec fn destination_of(output: Option<String>) -> Destination {
    match output {
        Some(path) => Destination::File(path),
        None => Destination::Stdout,
    }
}


/// Plans the output of an artifact: the raw bytes when `raw`, else `0x`
/// and hex digits; to the file named by `output` if there is one, else to
/// standard output.
pub fn plan_export(artifact: Vec<u8>, raw: bool, output: Option<String>) -> (r: ExportPlan)
    ensures
        r.contents@ == artifact_text(artifact@, raw),
        r.destination == destination_of(output),
{
    let destination = match output {
        Some(path) => Destination::File(path),
        None => Destination::Stdout,
    };
    ExportPlan { destination, contents: render_artifact(artifact, raw) }
}

/// The `export-genesis-wasm` command, given the genesis storage: the
/// runtime code under `:code`, planned for output; an error, and nothing to
/// write, when the storage has no code.
pub fn export_genesis_wasm(storage: Storage, raw: bool, output: Option<String>) -> (r: Result<
    ExportPlan,
    String,
>)
    ensures
        top_of(storage).contains_key(code_key_spec()) <==> r is Ok,
        match r {
            Ok(plan) => plan.contents@ == artifact_text(top_of(storage)[code_key_spec()], raw)
                && plan.destination == destination_of(output),
            Err(e) => e@ == missing_code_message(),
        },
{
    let code = extract_genesis_wasm(storage)?;
    Ok(plan_export(code, raw, output))
}

/// An export is a function of its inputs: the same artifact with the same
/// flags is planned to the same bytes and the same destination.
pub proof fn lemma_export_deterministic(
    a: Seq<u8>,
    b: Seq<u8>,
    raw: bool,
    o: Option<String>,
    p: Option<String>,
)
    requires
        a == b,
        o == p,
    ensures
        artifact_text(a, raw) == artifact_text(b, raw),
        destination_of(o) == destination_of(p),
{
}

/// The runtime code export depends on the genesis storage's contents alone:
/// two storages that hold the same entries give the same outcome.
pub proof fn lemma_wasm_export_deterministic(s: Storage, t: Storage, raw: bool)
    requires
        top_of(s) == top_of(t),
    ensures
        top_of(s).contains_key(code_key_spec()) == top_of(t).contains_key(code_key_spec()),
        top_of(s).contains_key(code_key_spec()) ==> artifact_text(
            top_of(s)[code_key_spec()],
            raw,
        ) == artifact_text(top_of(t)[code_key_spec()], raw),
{
}

} // verus!
