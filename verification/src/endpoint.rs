//! Where the service is reached.

use vstd::prelude::*;

verus! {

/// The API domain and whether to connect over HTTPS.
pub struct Host {
    /// API domain
    pub host: String,
    /// Connect over HTTPS
    pub https: bool,
}

/// `https` or `http`.
pub open spec fn scheme_of(https: bool) -> Seq<char> {
    if https { "https"@ } else { "http"@ }
}

impl Host {
    /// The management API's address: `<scheme>://api.<host>`.
    pub fn management_url(&self) -> (r: String)
        ensures
            r@ == scheme_of(self.https) + "://api."@ + self.host@,
    {
        let mut s = if self.https { "https".to_owned() } else { "http".to_owned() };
        s.append("://api.");
        s.append(self.host.as_str());
        s
    }
}

} // verus!
