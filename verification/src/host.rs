//! Host-identity logic: the fixed list of known hosts, the names they go by,
//! and the selection of a host from what the platform reports as available.
//!
//! The platform queries themselves (which hosts exist here, opening one) are
//! I/O and live in the unverified shell; it hands the reported names in as
//! plain strings, lowercased, and takes plain identities back.

use vstd::prelude::*;
use crate::types::{all_hosts_spec, HostId};

verus! {

/// Returns every host identity the library knows of, in the same fixed
/// order as `crate::types::get_all_hosts`.
pub fn get_all_hosts_list() -> (r: Vec<HostId>)
    ensures
        r@ == all_hosts_spec(),
{
    crate::types::get_all_hosts()
}

/// The lowercase name a host identity goes by; `Other` has none.
pub open spec fn host_name_spec(id: HostId) -> Seq<char> {
    match id {
        HostId::Alsa => "alsa"@,
        HostId::Jack => "jack"@,
        HostId::Wasapi => "wasapi"@,
        HostId::Asio => "asio"@,
        HostId::CoreAudio => "coreaudio"@,
        HostId::Emscripten => "emscripten"@,
        HostId::Other => ""@,
    }
}

/// The lowercase name of a host identity.
pub fn host_id_name(id: HostId) -> (name: &'static str)
    ensures
        name@ == host_name_spec(id),
{
    match id {
        HostId::Alsa => "alsa",
        HostId::Jack => "jack",
        HostId::Wasapi => "wasapi",
        HostId::Asio => "asio",
        HostId::CoreAudio => "coreaudio",
        HostId::Emscripten => "emscripten",
        HostId::Other => "",
    }
}

/// The host identity a lowercase name denotes; unknown names denote `Other`.
pub open spec fn host_id_of_name_spec(name: Seq<char>) -> HostId {
    if name == "alsa"@ {
        HostId::Alsa
    } else if name == "jack"@ {
        HostId::Jack
    } else if name == "wasapi"@ {
        HostId::Wasapi
    } else if name == "asio"@ {
        HostId::Asio
    } else if name == "coreaudio"@ {
        HostId::CoreAudio
    } else if name == "emscripten"@ {
        HostId::Emscripten
    } else {
        HostId::Other
    }
}

/// Maps a platform-reported host name (already lowercased by the caller) to
/// the identity it denotes.
pub fn host_id_from_name(name: &str) -> (id: HostId)
    ensures
        id == host_id_of_name_spec(name@),
{
    let n: String = name.to_owned();
    if n == "alsa".to_owned() {
        HostId::Alsa
    } else if n == "jack".to_owned() {
        HostId::Jack
    } else if n == "wasapi".to_owned() {
        HostId::Wasapi
    } else if n == "asio".to_owned() {
        HostId::Asio
    } else if n == "coreaudio".to_owned() {
        HostId::CoreAudio
    } else if n == "emscripten".to_owned() {
        HostId::Emscripten
    } else {
        HostId::Other
    }
}

/// Finds the requested host among the ones the platform reports available:
/// the first position holding `want`, or nothing when it is absent.
pub fn find_host(available: &Vec<HostId>, want: HostId) -> (r: Option<usize>)
    ensures
        match r {
            Some(i) => i < available@.len() && available@[i as int] == want && forall|j: int|
                0 <= j < i ==> available@[j] != want,
            None => forall|j: int| 0 <= j < available@.len() ==> available@[j] != want,
        },
{
    let n: usize = available.len();
    let mut i: usize = 0;
    while i < n
        invariant
            n == available@.len(),
            i <= n,
            forall|j: int| 0 <= j < i ==> available@[j] != want,
        decreases n - i,
    {
        if available[i] == want {
            return Some(i);
        }
        i += 1;
    }
    None
}

} // verus!
