//! A cache of geolocation answers in a hash map keyed by address. The
//! lookups themselves are made elsewhere; the cache holds what came back.

use vstd::hash_map::StringHashMap;
use vstd::prelude::*;
use crate::error::DmarcError;
use crate::error::ErrorView;
use crate::models::text_view;

verus! {

/// Where an address is, as a lookup service reports it.
#[derive(Debug, Clone)]
pub struct IpGeoInfo {
    pub country: String,
    pub city: Option<String>,
    /// Latitude in millionths of a degree.
    pub latitude_micro: i64,
    /// Longitude in millionths of a degree.
    pub longitude_micro: i64,
    pub asn: Option<String>,
    pub organization: Option<String>,
}

/// Mathematical value of an [`IpGeoInfo`].
pub struct GeoView {
    pub country: Seq<char>,
    pub city: Option<Seq<char>>,
    pub latitude_micro: i64,
    pub longitude_micro: i64,
    pub asn: Option<Seq<char>>,
    pub organization: Option<Seq<char>>,
}

impl View for IpGeoInfo {
    type V = GeoView;

    open spec fn view(&self) -> GeoView {
        GeoView {
            country: self.country@,
            city: text_view(self.city),
            latitude_micro: self.latitude_micro,
            longitude_micro: self.longitude_micro,
            asn: text_view(self.asn),
            organization: text_view(self.organization),
        }
    }
}

/// Copies a text that may be missing.
pub fn duplicate_text(text: &Option<String>) -> (r: Option<String>)
    ensures
        text_view(r) == text_view(*text),
{
    match text {
        Some(t) => Some(t.clone()),
        None => None,
    }
}

impl IpGeoInfo {
    /// A copy with the same value.
    pub fn duplicate(&self) -> (r: IpGeoInfo)
        ensures
            r@ == self@,
    {
        IpGeoInfo {
            country: self.country.clone(),
            city: duplicate_text(&self.city),
            latitude_micro: self.latitude_micro,
            longitude_micro: self.longitude_micro,
            asn: duplicate_text(&self.asn),
            organization: duplicate_text(&self.organization),
        }
    }
}

/// The values of the answers of a map, under their addresses.
pub open spec fn answer_views(answers: Map<Seq<char>, IpGeoInfo>) -> Map<Seq<char>, GeoView> {
    answers.map_values(|info: IpGeoInfo| info@)
}

/// The cache: a hash map from addresses to the answers kept for them.
pub struct GeoLookup {
    answers: StringHashMap<IpGeoInfo>,
}

impl View for GeoLookup {
    type V = Map<Seq<char>, GeoView>;

    closed spec fn view(&self) -> Map<Seq<char>, GeoView> {
        answer_views(self.answers@)
    }
}

impl GeoLookup {
    /// An empty cache.
    pub fn new() -> (cache: GeoLookup)
        ensures
            cache@ == Map::<Seq<char>, GeoView>::empty(),
    {
        let cache = GeoLookup { answers: StringHashMap::new() };
        assert(cache@ =~= Map::<Seq<char>, GeoView>::empty());
        cache
    }

    /// The answer kept for an address, if there is one.
    pub fn lookup_cached(&self, ip: &str) -> (r: Option<IpGeoInfo>)
        ensures
            match r {
                Some(info) => self@.contains_key(ip@) && self@[ip@] == info@,
                None => !self@.contains_key(ip@),
            },
    {
        match self.answers.get(ip) {
            Some(info) => Some(info.duplicate()),
            None => None,
        }
    }

    /// Keeps an answer for an address, in the place of an older one if
    /// there is one.
    pub fn remember(&mut self, ip: &str, info: IpGeoInfo)
        ensures
            final(self)@ == old(self)@.insert(ip@, info@),
    {
        let ghost before = self.answers@;
        self.answers.insert(ip.to_owned(), info);
        assert(answer_views(before.insert(ip@, info)) =~= answer_views(before).insert(ip@, info@));
    }

    /// Forgets every answer.
    pub fn clear_cache(&mut self)
        ensures
            final(self)@ == Map::<Seq<char>, GeoView>::empty(),
    {
        self.answers.clear();
        assert(self@ =~= Map::<Seq<char>, GeoView>::empty());
    }

    /// The number of addresses with an answer.
    pub fn cache_size(&self) -> (n: usize)
        ensures
            n == self@.len(),
    {
        assert(self@.dom() =~= self.answers@.dom());
        self.answers.len()
    }

    /// Takes what a lookup for an address brought: keeps a good answer and
    /// hands it back, and turns a failure, given by its description, into
    /// the error that says so.
    pub fn settle(&mut self, ip: &str, outcome: Result<IpGeoInfo, String>) -> (r: Result<
        IpGeoInfo,
        DmarcError,
    >)
        ensures
            match outcome {
                Ok(info) => r matches Ok(kept) && kept@ == info@ && final(self)@ == old(
                    self,
                )@.insert(ip@, info@),
                Err(why) => r matches Err(e) && e@ == ErrorView::Geolocation(why@) && final(self)@
                    == old(self)@,
            },
    {
        match outcome {
            Ok(info) => {
                self.remember(ip, info.duplicate());
                Ok(info)
            },
            Err(why) => Err(DmarcError::Geolocation(why)),
        }
    }
}

} // verus!
