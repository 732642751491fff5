//! The geocoding service: from the name of a place to its coordinates.

use vstd::prelude::*;
use vstd::string::*;
use crate::error::ServiceError;
use crate::provider::Request;
use crate::text::{chars_of, percent_encode, percent_encoded, string_of};

verus! {

/// The answer of the geocoding service, as far as it is read:
/// `{"response": {"GeoObjectCollection": {"featureMember":
/// [{"GeoObject": {"Point": {"pos": "37.12345 55.67890"}}}]}}}`.
#[derive(Clone, Debug, PartialEq, Eq)]
pub struct GeocodeResponse {
    pub response: GeocodeResponseWrapper,
}

#[derive(Clone, Debug, PartialEq, Eq)]
pub struct GeocodeResponseWrapper {
    pub geo_object_collection: GeoObjectCollection,
}

#[derive(Clone, Debug, PartialEq, Eq)]
pub struct GeoObjectCollection {
    /// The places found, best match first.
    pub feature_member: Vec<FeatureMember>,
}

#[derive(Clone, Debug, PartialEq, Eq)]
pub struct FeatureMember {
    pub geo_object: GeoObject,
}

#[derive(Clone, Debug, PartialEq, Eq)]
pub struct GeoObject {
    pub point: Point,
}

#[derive(Clone, Debug, PartialEq, Eq)]
pub struct Point {
    /// Longitude, one space, latitude.
    pub pos: String,
}

/// `pos` holds exactly one space, and holds it at index `at`.
pub open spec fn splits_at(pos: Seq<char>, at: int) -> bool {
    &&& 0 <= at < pos.len()
    &&& pos[at] == ' '
    &&& forall|j: int| 0 <= j < pos.len() && j != at ==> pos[j] != ' '
}

/// The two tokens of a position, longitude then latitude, if the text is
/// exactly two tokens with one space between them.
pub open spec fn position_tokens(pos: Seq<char>) -> Option<(Seq<char>, Seq<char>)> {
    if exists|at: int| splits_at(pos, at) {
        let at = choose|at: int| splits_at(pos, at);
        Some((pos.take(at), pos.skip(at + 1)))
    } else {
        None
    }
}

/// The tokens of the first place found, longitude then latitude.
pub open spec fn first_position(response: &GeocodeResponse) -> Option<(Seq<char>, Seq<char>)> {
    let members = response.response.geo_object_collection.feature_member@;
    if members.len() > 0 {
        position_tokens(members[0].geo_object.point.pos@)
    } else {
        None
    }
}

/// `outcome` is something that `parse` can return for a text that reads
/// `text`.
pub open spec fn parses_to<C, P: Fn(&str) -> Option<C>>(
    parse: P,
    text: Seq<char>,
    outcome: Option<C>,
) -> bool {
    exists|token: &str| token@ == text && #[trigger] parse.ensures((token,), outcome)
}

/// The URL that asks the geocoding service for a place.
pub open spec fn geocode_url(location: Seq<u8>, key: Seq<char>) -> Seq<char> {
    "https://geocode-maps.yandex.ru/1.x/?geocode="@ + percent_encoded(location)
        + "&kind=locality&apikey="@ + key + "&format=json"@
}

/// A position reads longitude, space, latitude: two texts without a space,
/// written one after the other with a space between them, are the longitude
/// and the latitude, in this order.
pub proof fn lemma_position_is_longitude_then_latitude(lon: Seq<char>, lat: Seq<char>)
    requires
        !lon.contains(' '),
        !lat.contains(' '),
    ensures
        position_tokens(lon + seq![' '] + lat) == Some((lon, lat)),
{
    let pos = lon + seq![' '] + lat;
    let at = lon.len() as int;
    assert forall|j: int| 0 <= j < pos.len() && j != at implies pos[j] != ' ' by {
        if j < at {
            assert(lon.contains(lon[j]));
        } else {
            assert(lat.contains(lat[j - at - 1]));
        }
    }
    assert(splits_at(pos, at));
    let chosen = choose|i: int| splits_at(pos, i);
    assert(chosen == at) by {
        if chosen != at {
            assert(pos[at] == ' ');
        }
    }
    assert(pos.take(at) =~= lon);
    assert(pos.skip(at + 1) =~= lat);
}

/// Splits a position at its one space into longitude and latitude. Anything
/// but exactly two tokens is no position; the tokens themselves may be empty.
pub fn split_position(pos: &str) -> (tokens: Option<(String, String)>)
    ensures
        match tokens {
            Some((lon, lat)) => position_tokens(pos@) == Some((lon@, lat@)),
            None => position_tokens(pos@) is None,
        },
{
    let chars = chars_of(pos);
    let mut at: usize = 0;
    while at < chars.len() && chars[at] != ' '
        invariant
            at <= chars@.len(),
            forall|j: int| 0 <= j < at ==> chars@[j] != ' ',
        decreases chars@.len() - at,
    {
        at += 1;
    }
    if at == chars.len() {
        return None;
    }
    let mut next: usize = at + 1;
    while next < chars.len() && chars[next] != ' '
        invariant
            at < next <= chars@.len(),
            forall|j: int| at < j < next ==> chars@[j] != ' ',
        decreases chars@.len() - next,
    {
        next += 1;
    }
    if next < chars.len() {
        assert(pos@[at as int] == ' ' && pos@[next as int] == ' ');
        return None;
    }
    let lon = string_of(&chars, 0, at);
    let lat = string_of(&chars, at + 1, chars.len());
    proof {
        assert(splits_at(pos@, at as int));
    }
    Some((lon, lat))
}

/// A client's view of the geocoding service: the key, and with it every
/// request that the service is sent.
pub struct Geocoder {
    api_key: String,
}

impl Geocoder {
    /// The key that requests are signed with.
    pub closed spec fn key(&self) -> Seq<char> {
        self.api_key@
    }

    /// A geocoder that signs its requests with `api_key`.
    pub fn new(api_key: &str) -> (geocoder: Self)
        ensures
            geocoder.key() == api_key@,
    {
        Self { api_key: String::from_str(api_key) }
    }

    /// The request that asks the service where `location` is. The location is
    /// percent-encoded; the key goes in as it is.
    pub fn request(&self, location: &str) -> (request: Request)
        ensures
            request.url@ == geocode_url(location.spec_bytes(), self.key()),
            request.header is None,
    {
        let mut url = String::from_str("https://geocode-maps.yandex.ru/1.x/?geocode=");
        url.append(percent_encode(location).as_str());
        url.append("&kind=locality&apikey=");
        url.append(self.api_key.as_str());
        url.append("&format=json");
        Request { url, header: None }
    }

    /// Reads the coordinates of the first place found, as latitude and
    /// longitude: the service writes the longitude first, so the two tokens
    /// come back in the other order. `parse` turns a token into a number.
    ///
    /// The location cannot be geocoded if no place was found, if the position
    /// is not exactly two tokens, or if `parse` refuses one of them. A failed
    /// exchange stays the failure that it was.
    pub fn geocode<C, P: Fn(&str) -> Option<C>>(
        &self,
        found: Result<GeocodeResponse, ServiceError>,
        parse: P,
    ) -> (coordinates: Result<(C, C), ServiceError>)
        requires
            forall|token: &str| parse.requires((token,)),
        ensures
            match found {
                Err(error) => coordinates == Err::<(C, C), ServiceError>(error),
                Ok(response) => match first_position(&response) {
                    None => coordinates == Err::<(C, C), ServiceError>(
                        ServiceError::GeocodeFailed,
                    ),
                    Some((lon_text, lat_text)) => match coordinates {
                        Ok((lat, lon)) => parses_to(parse, lon_text, Some(lon)) && parses_to(
                            parse,
                            lat_text,
                            Some(lat),
                        ),
                        Err(error) => error == ServiceError::GeocodeFailed && (parses_to(
                            parse,
                            lon_text,
                            None::<C>,
                        ) || parses_to(parse, lat_text, None::<C>)),
                    },
                },
            },
    {
        match found {
            Err(error) => Err(error),
            Ok(response) => {
                let members = &response.response.geo_object_collection.feature_member;
                if members.len() == 0 {
                    return Err(ServiceError::GeocodeFailed);
                }
                match split_position(members[0].geo_object.point.pos.as_str()) {
                    None => Err(ServiceError::GeocodeFailed),
                    Some((lon_text, lat_text)) => {
                        let lon_token = lon_text.as_str();
                        let lat_token = lat_text.as_str();
                        let lon = parse(lon_token);
                        let lat = parse(lat_token);
                        match (lon, lat) {
                            (Some(lon), Some(lat)) => Ok((lat, lon)),
                            _ => Err(ServiceError::GeocodeFailed),
                        }
                    },
                }
            },
        }
    }
}

} // verus!
