use vstd::prelude::*;

verus! {

/// The role an authenticated client presents during the authentication
/// handshake; submitting searchers are the only role this client uses. The
/// handshake itself belongs to the authenticator collaborator.
#[derive(Debug, Clone, Copy, PartialEq, Eq, Structural)]
pub enum Role {
    Searcher,
}

/// How a channel to the engine is to be secured: with transport-level
/// encryption under default trust settings, or in plaintext.
#[derive(Debug, Clone, Copy, PartialEq, Eq, Structural)]
pub enum TransportSecurity {
    Tls,
    Plaintext,
}

/// A URL asks for a secure transport exactly when it begins with the
/// scheme prefix `https`.
pub open spec fn spec_secure_scheme(url: Seq<char>) -> bool {
    url.len() >= 5 && url.subrange(0, 5) == "https"@
}

/// Chooses the transport security for an endpoint URL: `Tls` exactly for
/// secure-scheme (`https`) URLs, `Plaintext` otherwise. The caller performs
/// the actual negotiation when it opens the channel.
pub fn select_transport(url: &str) -> (r: TransportSecurity)
    ensures
        (r == TransportSecurity::Tls) <==> spec_secure_scheme(url@),
{
    proof {
        reveal_strlit("https");
    }
    let n = url.unicode_len();
    if n < 5 {
        return TransportSecurity::Plaintext;
    }
    if url.get_char(0) == 'h' && url.get_char(1) == 't' && url.get_char(2) == 't'
        && url.get_char(3) == 'p' && url.get_char(4) == 's' {
        proof {
            assert(url@.subrange(0, 5) =~= "https"@);
        }
        TransportSecurity::Tls
    } else {
        proof {
            if url@.subrange(0, 5) == "https"@ {
                assert(url@[0] == "https"@[0]);
                assert(url@[1] == "https"@[1]);
                assert(url@[2] == "https"@[2]);
                assert(url@[3] == "https"@[3]);
                assert(url@[4] == "https"@[4]);
            }
        }
        TransportSecurity::Plaintext
    }
}

} // verus!
