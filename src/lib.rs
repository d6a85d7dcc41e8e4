//! Verified core of the protocol-definition compiler: commitish resolution,
//! repository-sync decisions, file selection and module-tree generation.

mod commit_id;
mod modgen;
mod names;
mod resolve;
mod sync;

pub use commit_id::{
    decode_commit_id, hex_bytes, hex_value, is_lower_hex, is_lower_hex_digit, is_upper_hex,
    is_upper_hex_digit, oid_of,
};
pub use modgen::{
    file_block, file_blocks, generate_file_block, generate_tendermint_lib,
    generate_tendermint_mod, idents_view, include_line, indent, indentation,
    lemma_lib_declares_all_and_exports_last, lemma_meta_round_trip, lib_text, meta_block,
    mod_header, mod_text, nested_modules, reexport_line, version_decl, version_decls,
    TendermintVersion,
};
pub use names::{
    dotted_path, ends_with, has_prefix, has_suffix, in_namespace, is_generated_module,
    is_module_file, is_namespace_file, is_proto_file, is_proto_name, split_at_dots, split_dots,
    starts_with, strings_view,
};
pub use resolve::{
    decision, is_commit_id, lemma_commit_id_resolves_to_commit, lemma_local_branch_prefers_origin,
    lemma_origin_named_branch_is_ambiguous, resolution, resolve_commitish, Decision, RefChoice,
    RefProbe, ResolveError, Resolved,
};
pub use sync::{
    get_commitish, lemma_resync_changes_nothing, needs_url_update, step_taken, SyncAction,
    SyncEvent, SyncState,
};
