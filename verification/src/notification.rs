//! The notification value a caller asks the server to show, and the
//! descriptor a server returns about itself.
//!
//! A notification is consumed read-only by the session layer: the handle
//! returned for a shown notification stores its own snapshot, so that later
//! mutation of the caller's value never changes what a live handle believes
//! it represents.

use vstd::prelude::*;

verus! {

/// A notification as handed to the session layer.
///
/// `actions` is the ordered sequence of action identifiers offered to the
/// user; `hints` the ordered name / value pairs passed through to the
/// server; `timeout` the expiry time in milliseconds as the wire encodes it
/// (negative for the server default, zero for never); `id` the identifier
/// of a previously shown notification that this value should replace, or
/// `None` to have the server assign a fresh one.
pub struct Notification {
    pub appname: String,
    pub icon: String,
    pub summary: String,
    pub body: String,
    pub actions: Vec<String>,
    pub hints: Vec<(String, String)>,
    pub timeout: i32,
    pub id: Option<u32>,
}

/// The mathematical value of a [`Notification`]: every text field as a
/// sequence of characters.
#[verifier::ext_equal]
pub struct NotificationView {
    pub appname: Seq<char>,
    pub icon: Seq<char>,
    pub summary: Seq<char>,
    pub body: Seq<char>,
    pub actions: Seq<Seq<char>>,
    pub hints: Seq<(Seq<char>, Seq<char>)>,
    pub timeout: i32,
    pub id: Option<u32>,
}

/// The views of a sequence of owned strings.
pub open spec fn string_views(ss: Seq<String>) -> Seq<Seq<char>> {
    ss.map_values(|s: String| s@)
}

/// The views of a sequence of string pairs.
pub open spec fn pair_views(ps: Seq<(String, String)>) -> Seq<(Seq<char>, Seq<char>)> {
    ps.map_values(|p: (String, String)| (p.0@, p.1@))
}

impl View for Notification {
    type V = NotificationView;

    open spec fn view(&self) -> NotificationView {
        NotificationView {
            appname: self.appname@,
            icon: self.icon@,
            summary: self.summary@,
            body: self.body@,
            actions: string_views(self.actions@),
            hints: pair_views(self.hints@),
            timeout: self.timeout,
            id: self.id,
        }
    }
}

/// Copies a vector of strings element by element.
fn clone_strings(v: &Vec<String>) -> (r: Vec<String>)
    ensures
        r@ == v@,
{
    let mut r: Vec<String> = Vec::new();
    let mut i: usize = 0;
    while i < v.len()
        invariant
            i <= v.len(),
            r@ == v@.subrange(0, i as int),
        decreases v.len() - i,
    {
        let s: &String = &v[i];
        r.push(s.clone());
        i = i + 1;
        proof {
            assert(r@ =~= v@.subrange(0, i as int));
        }
    }
    proof {
        assert(r@ =~= v@);
    }
    r
}

/// Copies a vector of string pairs element by element.
fn clone_pairs(v: &Vec<(String, String)>) -> (r: Vec<(String, String)>)
    ensures
        r@ == v@,
{
    let mut r: Vec<(String, String)> = Vec::new();
    let mut i: usize = 0;
    while i < v.len()
        invariant
            i <= v.len(),
            r@ == v@.subrange(0, i as int),
        decreases v.len() - i,
    {
        let p: &(String, String) = &v[i];
        let c = (p.0.clone(), p.1.clone());
        proof {
            assert(c =~= v@[i as int]);
        }
        r.push(c);
        i = i + 1;
        proof {
            assert(r@ =~= v@.subrange(0, i as int));
        }
    }
    proof {
        assert(r@ =~= v@);
    }
    r
}

impl Clone for Notification {
    /// The snapshot a handle stores: every field equal to the source value.
    fn clone(&self) -> (res: Self)
        ensures
            res@ == self@,
    {
        let res = Notification {
            appname: self.appname.clone(),
            icon: self.icon.clone(),
            summary: self.summary.clone(),
            body: self.body.clone(),
            actions: clone_strings(&self.actions),
            hints: clone_pairs(&self.hints),
            timeout: self.timeout,
            id: self.id,
        };
        proof {
            assert(res@ =~= self@);
        }
        res
    }
}

/// What a server reports about itself: fetched on demand, never cached.
pub struct ServerInformation {
    /// The product name of the server.
    pub name: String,
    /// The vendor name.
    pub vendor: String,
    /// The server's version string.
    pub version: String,
    /// The specification version the server is compliant with.
    pub spec_version: String,
}

/// The mathematical value of a [`ServerInformation`].
#[verifier::ext_equal]
pub struct ServerInformationView {
    pub name: Seq<char>,
    pub vendor: Seq<char>,
    pub version: Seq<char>,
    pub spec_version: Seq<char>,
}

impl View for ServerInformation {
    type V = ServerInformationView;

    open spec fn view(&self) -> ServerInformationView {
        ServerInformationView {
            name: self.name@,
            vendor: self.vendor@,
            version: self.version@,
            spec_version: self.spec_version@,
        }
    }
}

} // verus!
