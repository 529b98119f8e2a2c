use vstd::prelude::*;
use crate::strcmp::str_refs_view;

verus! {

/// Entry points the host's call dispatcher requires of a contract built
/// against the older API generation.
pub open spec fn spec_required_exports_v010() -> Seq<Seq<char>> {
    seq![
        "cosmwasm_vm_version_3"@,
        "query"@,
        "init"@,
        "handle"@,
        "allocate"@,
        "deallocate"@,
    ]
}

/// Entry points the host's call dispatcher requires of a contract built
/// against the newer API generation.
pub open spec fn spec_required_exports_v1() -> Seq<Seq<char>> {
    seq!["interface_version_8"@, "allocate"@, "deallocate"@, "instantiate"@]
}

/// Fully-qualified imports the host supplies to a contract of the older
/// API generation.
pub open spec fn spec_supported_imports_v010() -> Seq<Seq<char>> {
    seq![
        "env.db_read"@,
        "env.db_write"@,
        "env.db_remove"@,
        "env.canonicalize_address"@,
        "env.humanize_address"@,
        "env.query_chain"@,
        "env.secp256k1_verify"@,
        "env.secp256k1_recover_pubkey"@,
        "env.secp256k1_sign"@,
        "env.ed25519_verify"@,
        "env.ed25519_batch_verify"@,
        "env.ed25519_sign"@,
    ]
}

/// Fully-qualified imports the host supplies to a contract of the newer
/// API generation.
pub open spec fn spec_supported_imports_v1() -> Seq<Seq<char>> {
    seq![
        "env.db_read"@,
        "env.db_write"@,
        "env.db_remove"@,
        "env.addr_validate"@,
        "env.addr_canonicalize"@,
        "env.addr_humanize"@,
        "env.secp256k1_verify"@,
        "env.secp256k1_recover_pubkey"@,
        "env.secp256k1_sign"@,
        "env.ed25519_verify"@,
        "env.ed25519_batch_verify"@,
        "env.ed25519_sign"@,
        "env.dcap_quote_verify"@,
        "env.debug"@,
        "env.query_chain"@,
        "env.gas_evaporate"@,
        "env.check_gas"@,
    ]
}

/// Entry points a contract must export to take part in cross-chain
/// channel and packet handling; checked by a separate validation path
/// through the same export validator.
pub open spec fn spec_required_ibc_exports() -> Seq<Seq<char>> {
    seq![
        "ibc_channel_open"@,
        "ibc_channel_connect"@,
        "ibc_channel_close"@,
        "ibc_packet_receive"@,
        "ibc_packet_ack"@,
        "ibc_packet_timeout"@,
    ]
}

/// The older generation's required exports, as caller-usable values.
pub fn required_exports_v010() -> (r: Vec<&'static str>)
    ensures
        str_refs_view(r@) == spec_required_exports_v010(),
{
    let mut v: Vec<&'static str> = Vec::new();
    v.push("cosmwasm_vm_version_3");
    v.push("query");
    v.push("init");
    v.push("handle");
    v.push("allocate");
    v.push("deallocate");
    proof {
        assert(str_refs_view(v@) =~= spec_required_exports_v010());
    }
    v
}

/// The newer generation's required exports, as caller-usable values.
pub fn required_exports_v1() -> (r: Vec<&'static str>)
    ensures
        str_refs_view(r@) == spec_required_exports_v1(),
{
    let mut v: Vec<&'static str> = Vec::new();
    v.push("interface_version_8");
    v.push("allocate");
    v.push("deallocate");
    v.push("instantiate");
    proof {
        assert(str_refs_view(v@) =~= spec_required_exports_v1());
    }
    v
}

/// The older generation's supported imports, as caller-usable values.
pub fn supported_imports_v010() -> (r: Vec<&'static str>)
    ensures
        str_refs_view(r@) == spec_supported_imports_v010(),
{
    let mut v: Vec<&'static str> = Vec::new();
    v.push("env.db_read");
    v.push("env.db_write");
    v.push("env.db_remove");
    v.push("env.canonicalize_address");
    v.push("env.humanize_address");
    v.push("env.query_chain");
    v.push("env.secp256k1_verify");
    v.push("env.secp256k1_recover_pubkey");
    v.push("env.secp256k1_sign");
    v.push("env.ed25519_verify");
    v.push("env.ed25519_batch_verify");
    v.push("env.ed25519_sign");
    proof {
        assert(str_refs_view(v@) =~= spec_supported_imports_v010());
    }
    v
}

/// The newer generation's supported imports, as caller-usable values.
pub fn supported_imports_v1() -> (r: Vec<&'static str>)
    ensures
        str_refs_view(r@) == spec_supported_imports_v1(),
{
    let mut v: Vec<&'static str> = Vec::new();
    v.push("env.db_read");
    v.push("env.db_write");
    v.push("env.db_remove");
    v.push("env.addr_validate");
    v.push("env.addr_canonicalize");
    v.push("env.addr_humanize");
    v.push("env.secp256k1_verify");
    v.push("env.secp256k1_recover_pubkey");
    v.push("env.secp256k1_sign");
    v.push("env.ed25519_verify");
    v.push("env.ed25519_batch_verify");
    v.push("env.ed25519_sign");
    v.push("env.dcap_quote_verify");
    v.push("env.debug");
    v.push("env.query_chain");
    v.push("env.gas_evaporate");
    v.push("env.check_gas");
    proof {
        assert(str_refs_view(v@) =~= spec_supported_imports_v1());
    }
    v
}

/// The cross-chain entry-point list, as caller-usable values.
pub fn required_ibc_exports() -> (r: Vec<&'static str>)
    ensures
        str_refs_view(r@) == spec_required_ibc_exports(),
{
    let mut v: Vec<&'static str> = Vec::new();
    v.push("ibc_channel_open");
    v.push("ibc_channel_connect");
    v.push("ibc_channel_close");
    v.push("ibc_packet_receive");
    v.push("ibc_packet_ack");
    v.push("ibc_packet_timeout");
    proof {
        assert(str_refs_view(v@) =~= spec_required_ibc_exports());
    }
    v
}

} // verus!
