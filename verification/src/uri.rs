//! Addresses of the endpoints that exchange uProtocol messages.

use vstd::prelude::*;

verus! {

/// A uProtocol URI: the address of a resource of a software entity on a host.
#[derive(Debug, PartialEq, Eq, Hash)]
pub struct UUri {
    pub authority_name: String,
    pub ue_id: u32,
    pub ue_version_major: u32,
    pub resource_id: u32,
}

/// What a [`UUri`] holds.
#[verifier::ext_equal]
pub struct UriView {
    pub authority_name: Seq<char>,
    pub ue_id: u32,
    pub ue_version_major: u32,
    pub resource_id: u32,
}

impl View for UUri {
    type V = UriView;

    open spec fn view(&self) -> UriView {
        UriView {
            authority_name: self.authority_name@,
            ue_id: self.ue_id,
            ue_version_major: self.ue_version_major,
            resource_id: self.resource_id,
        }
    }
}

impl Clone for UUri {
    fn clone(&self) -> (r: Self)
        ensures
            r == *self,
    {
        UUri {
            authority_name: self.authority_name.clone(),
            ue_id: self.ue_id,
            ue_version_major: self.ue_version_major,
            resource_id: self.resource_id,
        }
    }
}

impl UUri {
    /// Reads a URI from its text.
    pub fn from_str(text: &str) -> (r: Result<UUri, String>)
        ensures
            match r {
                Ok(uri) => parsed_uri(text@) == Ok::<UriView, Seq<char>>(uri@),
                Err(e) => parsed_uri(text@) == Err::<UriView, Seq<char>>(e@),
            },
            r matches Ok(uri) ==> is_canonical(uri@),
    {
        uri_from_text(text)
    }
}

/// The upper case hexadecimal digit for a number below sixteen.
pub open spec fn upper_hex_digit(d: int) -> char {
    if d < 10 {
        (48 + d) as char
    } else {
        (55 + d) as char
    }
}

/// The upper case hexadecimal numeral of a number, without leading zeros.
pub open spec fn upper_hex(n: nat) -> Seq<char>
    decreases n,
{
    if n < 16 {
        seq![upper_hex_digit(n as int)]
    } else {
        upper_hex(n / 16).push(upper_hex_digit((n % 16) as int))
    }
}

/// The text of a URI, without scheme: the authority, where there is one, then the entity, its
/// version and the resource.
pub open spec fn uri_text(uri: UriView) -> Seq<char> {
    let authority = if uri.authority_name.len() > 0 {
        seq!['/', '/'] + uri.authority_name
    } else {
        Seq::empty()
    };
    authority + seq!['/'] + upper_hex(uri.ue_id as nat) + seq!['/'] + upper_hex(
        uri.ue_version_major as nat,
    ) + seq!['/'] + upper_hex(uri.resource_id as nat)
}

/// Hexadecimal numerals hold no slash, and no two numbers have the same one.
proof fn lemma_upper_hex(n: nat, m: nat)
    ensures
        !upper_hex(n).contains('/'),
        upper_hex(n).len() > 0,
        upper_hex(n) == upper_hex(m) ==> n == m,
    decreases n,
{
    if n >= 16 {
        lemma_upper_hex(n / 16, m / 16);
        let rest = upper_hex(n / 16);
        assert(upper_hex(n).drop_last() =~= rest);
        assert forall|i: int| 0 <= i < upper_hex(n).len() implies upper_hex(n)[i] != '/' by {
            if i < rest.len() {
                assert(rest.contains(rest[i]));
            }
        }
    }
    if m >= 16 {
        lemma_upper_hex_nonempty(m / 16);
        assert(upper_hex(m).drop_last() =~= upper_hex(m / 16));
    }
    if upper_hex(n) == upper_hex(m) {
        assert(upper_hex(n).last() == upper_hex(m).last());
    }
}

proof fn lemma_upper_hex_nonempty(n: nat)
    ensures
        upper_hex(n).len() > 0,
{
}

/// What stands before and behind the last slash of a text is determined by the text.
proof fn lemma_last_slash(a: Seq<char>, x: Seq<char>, b: Seq<char>, y: Seq<char>)
    requires
        a + seq!['/'] + x == b + seq!['/'] + y,
        !x.contains('/'),
        !y.contains('/'),
    ensures
        a == b,
        x == y,
{
    let s = a + seq!['/'] + x;
    let t = b + seq!['/'] + y;
    assert(s.len() == a.len() + 1 + x.len() && t.len() == b.len() + 1 + y.len());
    assert(s[a.len() as int] == '/' && t[b.len() as int] == '/');
    if a.len() < b.len() {
        assert(s[b.len() as int] == x[b.len() - a.len() - 1]);
    }
    if b.len() < a.len() {
        assert(t[a.len() as int] == y[a.len() - b.len() - 1]);
    }
    assert(a =~= s.take(a.len() as int));
    assert(b =~= t.take(b.len() as int));
    assert(x =~= s.skip((a.len() + 1) as int));
    assert(y =~= t.skip((b.len() + 1) as int));
}

/// No two URIs have the same text.
pub proof fn lemma_uri_text_identifies(u: UriView, v: UriView)
    requires
        uri_text(u) == uri_text(v),
    ensures
        u == v,
{
    let authority_u = if u.authority_name.len() > 0 {
        seq!['/', '/'] + u.authority_name
    } else {
        Seq::empty()
    };
    let authority_v = if v.authority_name.len() > 0 {
        seq!['/', '/'] + v.authority_name
    } else {
        Seq::empty()
    };
    lemma_upper_hex(u.resource_id as nat, v.resource_id as nat);
    lemma_upper_hex(v.resource_id as nat, u.resource_id as nat);
    lemma_upper_hex(u.ue_version_major as nat, v.ue_version_major as nat);
    lemma_upper_hex(v.ue_version_major as nat, u.ue_version_major as nat);
    lemma_upper_hex(u.ue_id as nat, v.ue_id as nat);
    lemma_upper_hex(v.ue_id as nat, u.ue_id as nat);
    let entity_u = authority_u + seq!['/'] + upper_hex(u.ue_id as nat);
    let entity_v = authority_v + seq!['/'] + upper_hex(v.ue_id as nat);
    let version_u = entity_u + seq!['/'] + upper_hex(u.ue_version_major as nat);
    let version_v = entity_v + seq!['/'] + upper_hex(v.ue_version_major as nat);
    lemma_last_slash(
        version_u,
        upper_hex(u.resource_id as nat),
        version_v,
        upper_hex(v.resource_id as nat),
    );
    lemma_last_slash(
        entity_u,
        upper_hex(u.ue_version_major as nat),
        entity_v,
        upper_hex(v.ue_version_major as nat),
    );
    lemma_last_slash(
        authority_u,
        upper_hex(u.ue_id as nat),
        authority_v,
        upper_hex(v.ue_id as nat),
    );
    assert(authority_u.len() == authority_v.len());
    if u.authority_name.len() > 0 {
        assert(u.authority_name =~= authority_u.skip(2));
        assert(v.authority_name =~= authority_v.skip(2));
    }
    assert(u =~= v);
}

/// Whether reading the text of a URI gives back the URI.
pub open spec fn is_canonical(uri: UriView) -> bool {
    parsed_uri(uri_text(uri)) == Ok::<UriView, Seq<char>>(uri)
}

/// What `up_rust::UUri::from_str` returns for a text: the URI, or the text of the error.
pub uninterp spec fn parsed_uri(text: Seq<char>) -> Result<UriView, Seq<char>>;

/// Calls `up_rust::UUri::from_str`, whose result is a function of the text. A URI that it returns
/// is one that it also returns for the text that `to_uri` writes for that URI.
#[verifier::external_body]
pub(crate) fn uri_from_text(text: &str) -> (r: Result<UUri, String>)
    ensures
        match r {
            Ok(uri) => parsed_uri(text@) == Ok::<UriView, Seq<char>>(uri@),
            Err(e) => parsed_uri(text@) == Err::<UriView, Seq<char>>(e@),
        },
        r matches Ok(uri) ==> is_canonical(uri@),
{
    match text.parse::<up_rust::UUri>() {
        Ok(uri) => Ok(
            UUri {
                authority_name: uri.authority_name,
                ue_id: uri.ue_id,
                ue_version_major: uri.ue_version_major,
                resource_id: uri.resource_id,
            },
        ),
        Err(e) => Err(e.to_string()),
    }
}

/// Calls `up_rust::UUri::to_uri` without a scheme. It writes two slashes and the authority, where
/// the authority is not empty, and then the three numbers as upper case hexadecimal numerals, each
/// behind a slash.
#[verifier::external_body]
pub(crate) fn uri_to_text(uri: &UUri) -> (text: String)
    ensures
        text@ == uri_text(uri@),
{
    up_rust::UUri {
        authority_name: uri.authority_name.clone(),
        ue_id: uri.ue_id,
        ue_version_major: uri.ue_version_major,
        resource_id: uri.resource_id,
        ..Default::default()
    }.to_uri(false)
}

} // verus!
