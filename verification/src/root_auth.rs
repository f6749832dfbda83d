use vstd::prelude::*;
use vstd::string::*;

verus! {

/// Where the local root login service listens.
#[derive(Debug, PartialEq, Eq)]
pub struct Config {
    pub socket_path: String,
}

impl Clone for Config {
    fn clone(&self) -> (r: Config)
        ensures
            r == *self,
    {
        Config { socket_path: self.socket_path.clone() }
    }
}

/// A running local root login service.
pub struct LocalAuthServer {}

/// What the service does with a connection.
#[derive(Debug, PartialEq, Eq)]
pub enum LoginDecision {
    /// The peer's credentials could not be read: close without answer.
    Ignore,
    /// The peer runs as another user: answer with this message and close.
    Reject(String),
    /// The peer runs as the service's user: issue a root token.
    IssueToken,
}

/// The answer to a peer that runs as another user.
pub open spec fn uid_mismatch_text() -> Seq<char> {
    "error: your uid doesn't match that of jjs\n"@
}

/// Decides on a connection from the peer's user id (`None` where it could
/// not be read) and the service's own user id: only a peer of the same user
/// gets a root token.
pub fn login_decision(peer_uid: Option<u32>, my_uid: u32) -> (r: LoginDecision)
    ensures
        match peer_uid {
            None => r == LoginDecision::Ignore,
            Some(p) => if p == my_uid {
                r == LoginDecision::IssueToken
            } else {
                r matches LoginDecision::Reject(m) && m@ == uid_mismatch_text()
            },
        },
{
    match peer_uid {
        None => LoginDecision::Ignore,
        Some(p) => if p == my_uid {
            LoginDecision::IssueToken
        } else {
            LoginDecision::Reject("error: your uid doesn't match that of jjs\n".to_owned())
        },
    }
}

/// The answer that carries the outcome of issuing a root token: the
/// serialized token and a line break, or `Error: ` and the error's text.
pub fn token_reply(issued: Result<String, String>) -> (r: String)
    ensures
        r@ == (match issued {
            Ok(t) => t@ + "\n"@,
            Err(e) => "Error: "@ + e@,
        }),
{
    match issued {
        Ok(t) => t.concat("\n"),
        Err(e) => {
            let mut m = String::new();
            m.append("Error: ");
            m.append(e.as_str());
            m
        },
    }
}

} // verus!
