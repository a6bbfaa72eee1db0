use vstd::prelude::*;
use vstd::string::StringExecFns;

verus! {

/// Separator between the address and the port of an endpoint.
pub const ENDPOINT_SEPARATOR: &'static str = ":";

/// Configuration shared by every role: the peer to talk to (or the address to
/// listen on) and whether diagnostics are echoed.
pub struct CxlFmOptions {
    /// Address and port, joined by a colon.
    pub ip_port: String,
    /// Whether the caller wants diagnostic output.
    pub is_debug: bool,
}

/// The text of an endpoint made of `ip` and `port`.
pub open spec fn endpoint_text(ip: Seq<char>, port: Seq<char>) -> Seq<char> {
    ip + seq![':'] + port
}

impl CxlFmOptions {
    /// Builds the options for the endpoint `ip:port`.
    pub fn new(ip: &str, port: &str, is_debug: bool) -> (options: CxlFmOptions)
        ensures
            options.ip_port@ == endpoint_text(ip@, port@),
            options.is_debug == is_debug,
    {
        proof {
            reveal_strlit(":");
        }
        let mut text = String::from_str(ip);
        text.append(ENDPOINT_SEPARATOR);
        text.append(port);
        assert(text@ =~= endpoint_text(ip@, port@));
        CxlFmOptions { ip_port: text, is_debug }
    }
}

} // verus!
