use vstd::prelude::*;
use vstd::string::{StrSliceExecFns, StringExecFns};

use crate::models::{IdentityModel, SlimUser};

verus! {

/// The blob that carries an identity in an opaque session: one flag character
/// (`1` for an administrator, `0` otherwise), a colon, then the email.
pub open spec fn session_blob(id: IdentityModel) -> Seq<char> {
    seq![if id.clearance { '1' } else { '0' }, ':'] + id.email
}

/// The identity that a session blob carries, or `None` where it has not the
/// shape that `session_blob` gives.
pub open spec fn session_identity(blob: Seq<char>) -> Option<IdentityModel> {
    if blob.len() >= 2 && (blob[0] == '0' || blob[0] == '1') && blob[1] == ':' {
        Some(IdentityModel { email: blob.subrange(2, blob.len() as int), clearance: blob[0] == '1' })
    } else {
        None
    }
}

pub open spec fn opt_identity_view(o: Option<SlimUser>) -> Option<IdentityModel> {
    match o {
        Some(u) => Some(u@),
        None => None,
    }
}

/// Encodes an identity as an opaque session blob.
pub fn issue_session(identity: &SlimUser) -> (r: String)
    ensures
        r@ == session_blob(identity@),
{
    let flag = if identity.clearance {
        "1:"
    } else {
        "0:"
    };
    proof {
        reveal_strlit("1:");
        reveal_strlit("0:");
    }
    let mut blob = String::from_str(flag);
    blob.append(identity.email.as_str());
    proof {
        assert(blob@ =~= session_blob(identity@));
    }
    blob
}

/// Reads the identity out of a session blob that came from the network; any
/// other shape gives `None`.
pub fn parse_session(blob: &str) -> (r: Option<SlimUser>)
    ensures
        opt_identity_view(r) == session_identity(blob@),
{
    let n = blob.unicode_len();
    if n < 2 {
        return None;
    }
    let flag = blob.get_char(0);
    if (flag != '0' && flag != '1') || blob.get_char(1) != ':' {
        return None;
    }
    let email = blob.substring_char(2, n).to_owned();
    Some(SlimUser { email, clearance: flag == '1' })
}

/// The value that the transport must carry after logout: an empty blob,
/// which identifies no one.
pub fn revoke_session() -> (r: String)
    ensures
        r@.len() == 0,
        session_identity(r@) is None,
{
    String::new()
}

/// Every identity survives a trip through the session codec.
pub proof fn lemma_session_round_trip(id: IdentityModel)
    ensures
        session_identity(session_blob(id)) == Some(id),
{
    let b = session_blob(id);
    assert(b.subrange(2, b.len() as int) =~= id.email);
}

} // verus!
