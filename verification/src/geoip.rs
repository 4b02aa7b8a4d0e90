//! Server-side geolocation of a client address: what the two lookup services
//! answer is turned into a location, and a failed lookup into a placeholder.

use crate::errors::AppError;
use crate::ip_resolver::{is_private_or_loopback, spec_is_private_or_loopback};
use crate::text::{trim, trim_str};
use vstd::prelude::*;

verus! {

#[derive(Debug, Default)]
pub struct GeoLocation {
    pub ip: String,
    pub country: String,
    pub country_code: String,
    pub region: String,
    pub city: String,
}

/// What ipinfo.io answers about an address.
#[derive(Debug)]
pub struct IpInfoResponse {
    pub ip: Option<String>,
    pub city: Option<String>,
    pub region: Option<String>,
    pub country: Option<String>,
    pub bogon: Option<bool>,
}

/// What ip-api.com answers about an address.
#[derive(Debug)]
pub struct IpApiResponse {
    pub status: String,
    pub message: Option<String>,
    pub query: Option<String>,
    pub country: Option<String>,
    pub country_code: Option<String>,
    pub region_name: Option<String>,
    pub city: Option<String>,
}

/// A looked-up field: its text where that is not blank, else `Unknown`.
pub open spec fn spec_null_to_unknown(value: Option<Seq<char>>) -> Seq<char> {
    match value {
        Some(t) => if trim(t).len() > 0 {
            t
        } else {
            "Unknown"@
        },
        None => "Unknown"@,
    }
}

pub open spec fn opt_view(value: Option<String>) -> Option<Seq<char>> {
    match value {
        Some(s) => Some(s@),
        None => None,
    }
}

/// The address a service reports, or else the one asked about.
pub open spec fn reported_ip(reported: Option<String>, asked: Seq<char>) -> Seq<char> {
    match reported {
        Some(s) => s@,
        None => asked,
    }
}

/// The location ipinfo.io's answer gives, or `None` where it marks the address bogon.
pub open spec fn spec_geo_from_ipinfo(ip: Seq<char>, r: IpInfoResponse) -> Option<
    (Seq<char>, Seq<char>, Seq<char>, Seq<char>, Seq<char>),
> {
    if r.bogon == Some(true) {
        None
    } else {
        Some(
            (
                reported_ip(r.ip, ip),
                spec_null_to_unknown(opt_view(r.country)),
                spec_null_to_unknown(opt_view(r.country)),
                spec_null_to_unknown(opt_view(r.region)),
                spec_null_to_unknown(opt_view(r.city)),
            ),
        )
    }
}

/// The fields of a location: ip, country, country code, region, city.
pub open spec fn geo_fields(g: GeoLocation) -> (Seq<char>, Seq<char>, Seq<char>, Seq<char>, Seq<char>) {
    (g.ip@, g.country@, g.country_code@, g.region@, g.city@)
}

/// The location for a private address, which is not looked up.
pub open spec fn private_geo_fields(ip: Seq<char>) -> (Seq<char>, Seq<char>, Seq<char>, Seq<char>, Seq<char>) {
    (ip, "Private"@, "PRV"@, "Private"@, "Private"@)
}

/// The location for an address whose lookup failed.
pub open spec fn unknown_geo_fields(ip: Seq<char>) -> (Seq<char>, Seq<char>, Seq<char>, Seq<char>, Seq<char>) {
    (ip, "Unknown"@, "UNK"@, "Unknown"@, "Unknown"@)
}

/// A looked-up field: its text where that is not blank, else `Unknown`.
pub fn null_to_unknown(value: Option<String>) -> (r: String)
    ensures
        r@ == spec_null_to_unknown(opt_view(value)),
{
    match value {
        Some(text) => {
            if trim_str(text.as_str()).is_empty() {
                "Unknown".to_owned()
            } else {
                text
            }
        },
        None => "Unknown".to_owned(),
    }
}

fn copy_field(value: &Option<String>) -> (r: Option<String>)
    ensures
        opt_view(r) == opt_view(*value),
{
    match value {
        Some(s) => Some(s.clone()),
        None => None,
    }
}

/// The location ipinfo.io's answer gives about `ip`; an internal error where
/// the answer marks the address bogon.
pub fn geo_from_ipinfo(ip: &str, response: IpInfoResponse) -> (r: Result<GeoLocation, AppError>)
    ensures
        match r {
            Ok(g) => spec_geo_from_ipinfo(ip@, response) == Some(geo_fields(g)),
            Err(e) => spec_geo_from_ipinfo(ip@, response) is None && e is Internal
                && e->Internal_0@ == "bogon IP"@,
        },
{
    let bogon = match response.bogon {
        Some(b) => b,
        None => false,
    };
    if bogon {
        return Err(AppError::Internal("bogon IP".to_owned()));
    }
    let reported = match response.ip {
        Some(s) => s,
        None => ip.to_owned(),
    };
    let country_code = null_to_unknown(copy_field(&response.country));
    Ok(
        GeoLocation {
            ip: reported,
            country_code,
            country: null_to_unknown(response.country),
            region: null_to_unknown(response.region),
            city: null_to_unknown(response.city),
        },
    )
}

/// The location ip-api.com's answer gives about `ip`, or an internal error
/// carrying its message where its status is not `success`.
pub fn geo_from_ipapi(ip: &str, response: IpApiResponse) -> (r: Result<GeoLocation, AppError>)
    ensures
        match r {
            Ok(g) => response.status@ == "success"@ && geo_fields(g) == (
                reported_ip(response.query, ip@),
                spec_null_to_unknown(opt_view(response.country)),
                spec_null_to_unknown(opt_view(response.country_code)),
                spec_null_to_unknown(opt_view(response.region_name)),
                spec_null_to_unknown(opt_view(response.city)),
            ),
            Err(e) => response.status@ != "success"@ && e is Internal && e->Internal_0@ == match response.message {
                Some(m) => m@,
                None => "ip-api lookup failed"@,
            },
        },
{
    if !crate::text::str_eq(response.status.as_str(), "success") {
        let message = match response.message {
            Some(m) => m,
            None => "ip-api lookup failed".to_owned(),
        };
        return Err(AppError::Internal(message));
    }
    let reported = match response.query {
        Some(s) => s,
        None => ip.to_owned(),
    };
    Ok(
        GeoLocation {
            ip: reported,
            country: null_to_unknown(response.country),
            country_code: null_to_unknown(response.country_code),
            region: null_to_unknown(response.region_name),
            city: null_to_unknown(response.city),
        },
    )
}

/// How the location of a client address is found.
pub enum GeoPlan {
    /// Known without a lookup.
    Resolved(GeoLocation),
    /// To be looked up by the geolocation services.
    Lookup,
}

impl GeoLocation {
    /// The location recorded for a private or loopback address.
    pub fn private_for(ip: &str) -> (r: GeoLocation)
        ensures
            geo_fields(r) == private_geo_fields(ip@),
    {
        GeoLocation {
            ip: ip.to_owned(),
            country: "Private".to_owned(),
            country_code: "PRV".to_owned(),
            region: "Private".to_owned(),
            city: "Private".to_owned(),
        }
    }

    /// The location recorded where the lookup of `ip` failed.
    pub fn unknown_for(ip: &str) -> (r: GeoLocation)
        ensures
            geo_fields(r) == unknown_geo_fields(ip@),
    {
        GeoLocation {
            ip: ip.to_owned(),
            country: "Unknown".to_owned(),
            country_code: "UNK".to_owned(),
            region: "Unknown".to_owned(),
            city: "Unknown".to_owned(),
        }
    }
}

/// A private or loopback address is not looked up; any other is.
pub fn plan_geo(client_ip: &str) -> (r: GeoPlan)
    ensures
        match r {
            GeoPlan::Resolved(g) => spec_is_private_or_loopback(client_ip@) && geo_fields(g)
                == private_geo_fields(client_ip@),
            GeoPlan::Lookup => !spec_is_private_or_loopback(client_ip@),
        },
{
    if is_private_or_loopback(client_ip) {
        GeoPlan::Resolved(GeoLocation::private_for(client_ip))
    } else {
        GeoPlan::Lookup
    }
}

/// The location to record after looking up `client_ip`: what the lookup found,
/// or the unknown placeholder where it failed.
pub fn geo_from_lookup(client_ip: &str, outcome: Result<GeoLocation, AppError>) -> (r: GeoLocation)
    ensures
        match outcome {
            Ok(g) => r == g,
            Err(_) => geo_fields(r) == unknown_geo_fields(client_ip@),
        },
{
    match outcome {
        Ok(g) => g,
        Err(_) => GeoLocation::unknown_for(client_ip),
    }
}

/// After the primary lookup (ipinfo.io): its location where it succeeded,
/// `None` where the fallback service (ip-api.com) is to be asked.
pub fn after_primary_lookup(primary: Result<GeoLocation, AppError>) -> (r: Option<GeoLocation>)
    ensures
        match primary {
            Ok(g) => r == Some(g),
            Err(_) => r is None,
        },
{
    match primary {
        Ok(g) => Some(g),
        Err(_) => None,
    }
}

} // verus!

verus! {

/// A looked-up field is never blank: a blank or missing value becomes `Unknown`.
pub proof fn lemma_null_to_unknown_not_blank(value: Option<Seq<char>>)
    ensures
        trim(spec_null_to_unknown(value)).len() > 0,
{
    reveal_strlit("Unknown");
    let u = "Unknown"@;
    assert(!crate::text::is_white_space(u[0]));
    assert(crate::text::trim_start(u) == u);
    assert(!crate::text::is_white_space(u.last()));
    assert(crate::text::trim_end(u) == u);
}

/// A location from ipinfo.io has no blank field but its address.
pub proof fn lemma_ipinfo_fields_not_blank(ip: Seq<char>, r: IpInfoResponse)
    ensures
        spec_geo_from_ipinfo(ip, r) matches Some(g) ==> trim(g.1).len() > 0 && trim(g.2).len() > 0
            && trim(g.3).len() > 0 && trim(g.4).len() > 0,
{
    lemma_null_to_unknown_not_blank(opt_view(r.country));
    lemma_null_to_unknown_not_blank(opt_view(r.region));
    lemma_null_to_unknown_not_blank(opt_view(r.city));
}

} // verus!

verus! {

/// A looked-up field keeps its text wherever that text is not blank; only a
/// missing or blank value is reported as `Unknown`.
pub proof fn lemma_null_to_unknown_keeps_text(value: Option<Seq<char>>)
    ensures
        value is Some && trim(value->0).len() > 0 ==> spec_null_to_unknown(value) == value->0,
        !(value is Some && trim(value->0).len() > 0) ==> spec_null_to_unknown(value) == "Unknown"@,
{
}

/// ipinfo.io's answer is refused exactly where it marks the address bogon.
/// Otherwise the location reports the address the service names (else the one
/// asked about), gives the country code and country both from the answer's
/// country, and each field keeps the answer's own field where not blank.
pub proof fn lemma_ipinfo_location(ip: Seq<char>, r: IpInfoResponse)
    ensures
        spec_geo_from_ipinfo(ip, r) is None <==> r.bogon == Some(true),
        spec_geo_from_ipinfo(ip, r) matches Some(g) ==> {
            &&& g.0 == (if r.ip is Some { r.ip->0@ } else { ip })
            &&& g.1 == g.2
            &&& (r.country is Some && trim(r.country->0@).len() > 0 ==> g.1 == r.country->0@)
            &&& (r.region is Some && trim(r.region->0@).len() > 0 ==> g.3 == r.region->0@)
            &&& (r.city is Some && trim(r.city->0@).len() > 0 ==> g.4 == r.city->0@)
        },
{
}

} // verus!

verus! {

/// A location's fields in the order the contracts list them: address,
/// country, country code, region, city.
pub proof fn lemma_geo_fields_by_name(g: GeoLocation)
    ensures
        geo_fields(g).0 == g.ip@,
        geo_fields(g).1 == g.country@,
        geo_fields(g).2 == g.country_code@,
        geo_fields(g).3 == g.region@,
        geo_fields(g).4 == g.city@,
{
}

/// The placeholder locations: a private address is `Private` (code `PRV`) in
/// every field, a failed lookup `Unknown` (code `UNK`); both keep the address.
pub proof fn lemma_placeholder_locations(ip: Seq<char>)
    ensures
        private_geo_fields(ip) == (ip, "Private"@, "PRV"@, "Private"@, "Private"@),
        unknown_geo_fields(ip) == (ip, "Unknown"@, "UNK"@, "Unknown"@, "Unknown"@),
{
}

/// An absent value stays absent and a present one keeps its text.
pub proof fn lemma_opt_view(value: Option<String>)
    ensures
        value is None ==> opt_view(value) is None,
        value is Some ==> opt_view(value) == Some(value->0@),
{
}

} // verus!
