//! The user's credential: the three cookie values that authenticate REST
//! calls. Reading it from disk and sending it over the wire happen outside
//! the library.

use vstd::prelude::*;
use std::collections::HashMap;

verus! {

/// The three cookies of a logged-in user; empty strings for an anonymous
/// session.
#[derive(Debug, Clone)]
pub struct Credential {
    pub session_data: String,
    pub bili_jct: String,
    pub buvid3: String,
}

impl Credential {
    /// An anonymous credential: all three values empty.
    pub fn new() -> (c: Credential)
        ensures
            c.session_data@ == Seq::<char>::empty(),
            c.bili_jct@ == Seq::<char>::empty(),
            c.buvid3@ == Seq::<char>::empty(),
    {
        Credential { session_data: String::new(), bili_jct: String::new(), buvid3: String::new() }
    }

    /// A credential from a list of exactly three values, in the order
    /// session data, anti-forgery token, device id; a longer list is
    /// refused.
    pub fn from_vec(src: &Vec<String>) -> (r: Option<Credential>)
        requires
            src@.len() >= 3,
        ensures
            r is Some <==> src@.len() == 3,
            r matches Some(c) ==> {
                &&& c.session_data == src@[0]
                &&& c.bili_jct == src@[1]
                &&& c.buvid3 == src@[2]
            },
    {
        if src.len() > 3 {
            return None;
        }
        Some(
            Credential {
                session_data: src[0].clone(),
                bili_jct: src[1].clone(),
                buvid3: src[2].clone(),
            },
        )
    }

    /// The credential as request cookies: `SESSDATA`, `buvid3` and
    /// `bili_jct` mapped to their values.
    pub fn get_cookies(&self) -> (r: Option<HashMap<String, String>>)
        ensures
            r is Some,
    {
        let mut hm: HashMap<String, String> = HashMap::new();
        hm.insert("SESSDATA".to_owned(), self.session_data.clone());
        hm.insert("buvid3".to_owned(), self.buvid3.clone());
        hm.insert("bili_jct".to_owned(), self.bili_jct.clone());
        Some(hm)
    }
}

} // verus!
