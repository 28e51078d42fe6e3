//! Producer-factory and connection-builder string logic: the fully-qualified
//! topic identifier and the TLS broker address.

use vstd::prelude::*;
use vstd::string::StringExecFns;
use crate::text::push_u64_dec;
use crate::text::spec_udec;

verus! {

/// The fully-qualified topic identifier.
pub open spec fn spec_full_topic_name(namespace: Seq<char>, topic: Seq<char>) -> Seq<char> {
    "persistent://public/"@ + namespace + "/"@ + topic
}

/// The TLS broker address for a hostname and port.
pub open spec fn spec_broker_address(hostname: Seq<char>, port: nat) -> Seq<char> {
    "pulsar+ssl://"@ + hostname + ":"@ + spec_udec(port)
}

/// Builds the fully-qualified topic identifier
/// `persistent://public/<namespace>/<topic>`.
///
/// The tenant path segment is the fixed literal `public`: the tenant field
/// of the configuration is accepted but deliberately not substituted here,
/// preserving the tool's literal behavior.
pub fn full_topic_name(namespace: &str, topic: &str) -> (r: String)
    ensures
        r@ == spec_full_topic_name(namespace@, topic@),
{
    let mut s = "persistent://public/".to_owned();
    s.append(namespace);
    s.append("/");
    s.append(topic);
    proof {
        assert(s@ =~= spec_full_topic_name(namespace@, topic@));
    }
    s
}

/// Composes the TLS-secured broker address `pulsar+ssl://<hostname>:<port>`.
pub fn broker_address(hostname: &str, port: u16) -> (r: String)
    ensures
        r@ == spec_broker_address(hostname@, port as nat),
{
    let mut s = "pulsar+ssl://".to_owned();
    s.append(hostname);
    s.append(":");
    push_u64_dec(&mut s, port as u64);
    proof {
        assert(s@ =~= spec_broker_address(hostname@, port as nat));
    }
    s
}

} // verus!
