//! Proof of place: a digest that commits a submitter to a claimed location
//! and time.

use vstd::prelude::*;
use vstd::string::*;
use vstd::utf8::encode_utf8;
use crate::digest::{digest_hex, digest_text, lemma_digest_text_differs, sha256_tells_apart};
use crate::timestamp::Timestamp;

verus! {

/// A claimed position. Each coordinate is held as the decimal text of the
/// number, in the shortest form that reads back as the same number (`1.0`,
/// `-73.935242`): the text is what a proof of place commits to.
#[derive(Debug, PartialEq, Eq)]
pub struct Location {
    pub latitude: String,
    pub longitude: String,
}

/// The mathematical content of a `Location`.
pub struct LocationView {
    pub latitude: Seq<char>,
    pub longitude: Seq<char>,
}

impl View for Location {
    type V = LocationView;

    open spec fn view(&self) -> LocationView {
        LocationView { latitude: self.latitude@, longitude: self.longitude@ }
    }
}

/// The text of a location: `(latitude, longitude)`.
pub open spec fn location_text(location: LocationView) -> Seq<char> {
    seq!['('] + location.latitude + seq![',', ' '] + location.longitude + seq![')']
}

/// Whether a character can stand in the decimal text of a number: a digit, a
/// sign, the point, the mark of the exponent, or a letter of `inf` or `NaN`.
pub open spec fn is_number_char(c: char) -> bool {
    ||| '0' <= c <= '9'
    ||| c == '-'
    ||| c == '+'
    ||| c == '.'
    ||| c == 'e'
    ||| c == 'E'
    ||| c == 'i'
    ||| c == 'n'
    ||| c == 'f'
    ||| c == 'N'
    ||| c == 'a'
}

/// Whether a text is made of such characters alone.
pub open spec fn is_number_text(text: Seq<char>) -> bool {
    forall|i: int| 0 <= i < text.len() ==> is_number_char(#[trigger] text[i])
}

/// Whether both coordinates of a location are written as numbers.
pub open spec fn is_numeric(location: LocationView) -> bool {
    is_number_text(location.latitude) && is_number_text(location.longitude)
}

/// The claim that a proof of place commits to: the text of the location,
/// followed by the text of the time.
pub open spec fn place_claim(location: LocationView, timestamp: Timestamp) -> Seq<char> {
    location_text(location) + timestamp.text()
}

/// The proof of place for a location and a time: the digest of the claim.
pub open spec fn place_proof(location: LocationView, timestamp: Timestamp) -> Seq<char> {
    digest_text(place_claim(location, timestamp))
}

/// Whether a digest is accepted as the proof of place for a location and a
/// time: it is, where it equals their proof of place, with no tolerance.
pub open spec fn accepts(proof_text: Seq<char>, location: LocationView, timestamp: Timestamp) -> bool {
    proof_text == place_proof(location, timestamp)
}

impl Clone for Location {
    fn clone(&self) -> (copy: Self)
        ensures
            copy@ == self@,
    {
        Location { latitude: self.latitude.clone(), longitude: self.longitude.clone() }
    }
}

impl Location {
    /// The location with the given coordinates.
    pub fn new(latitude: String, longitude: String) -> (location: Location)
        ensures
            location.latitude == latitude,
            location.longitude == longitude,
    {
        Location { latitude, longitude }
    }

    /// The location whose coordinates are both zero.
    pub fn origin() -> (location: Location)
        ensures
            location.latitude@ == "0.0"@,
            location.longitude@ == "0.0"@,
    {
        Location { latitude: String::from_str("0.0"), longitude: String::from_str("0.0") }
    }

    /// Writes the location as text.
    pub fn to_text(&self) -> (text: String)
        ensures
            text@ == location_text(self@),
    {
        let mut text = String::from_str("(");
        text.append(self.latitude.as_str());
        text.append(", ");
        text.append(self.longitude.as_str());
        text.append(")");
        proof {
            reveal_strlit("(");
            reveal_strlit(", ");
            reveal_strlit(")");
            assert(text@ =~= location_text(self@));
        }
        text
    }
}

/// A claim of having been at a location at a time.
pub struct ProofOfPlace {
    pub location: Location,
    pub timestamp: Timestamp,
}

impl ProofOfPlace {
    /// A claim for the location at the present time.
    pub fn new(location: Location) -> (claim: ProofOfPlace)
        ensures
            claim.location == location,
    {
        ProofOfPlace::at(location, Timestamp::now())
    }

    /// A claim for the location at the given time.
    pub fn at(location: Location, timestamp: Timestamp) -> (claim: ProofOfPlace)
        ensures
            claim.location == location,
            claim.timestamp == timestamp,
    {
        ProofOfPlace { location, timestamp }
    }

    /// The digest that commits to the claim.
    pub fn generate_proof(&self) -> (proof_text: String)
        ensures
            proof_text@ == place_proof(self.location@, self.timestamp),
            proof_text@.len() == 64,
    {
        let mut claim = self.location.to_text();
        let time = self.timestamp.to_text();
        claim.append(time.as_str());
        digest_hex(claim.as_str())
    }

    /// Whether the digest is the one that commits to the location and time:
    /// the digest is computed again and compared, character by character.
    pub fn verify_proof(proof_text: &str, location: &Location, timestamp: Timestamp) -> (accepted:
        bool)
        ensures
            accepted == accepts(proof_text@, location@, timestamp),
    {
        let mut claim = location.to_text();
        let time = timestamp.to_text();
        claim.append(time.as_str());
        let computed = digest_hex(claim.as_str());
        let given = String::from_str(proof_text);
        computed == given
    }
}

/// A proof of place generated for a location and a time is accepted for
/// that location and time.
pub proof fn lemma_generated_proof_is_accepted(location: LocationView, timestamp: Timestamp)
    ensures
        accepts(place_proof(location, timestamp), location, timestamp),
{
}

/// A proof of place generated for one claim is rejected for another claim,
/// unless SHA-256 fails to tell the two claims apart. Two claims are one
/// where they read the same, whatever location and time they were made of.
pub proof fn lemma_proof_is_rejected_for_another_claim(
    location: LocationView,
    timestamp: Timestamp,
    other_location: LocationView,
    other_timestamp: Timestamp,
)
    requires
        place_claim(location, timestamp) != place_claim(other_location, other_timestamp),
        sha256_tells_apart(
            encode_utf8(place_claim(location, timestamp)),
            encode_utf8(place_claim(other_location, other_timestamp)),
        ),
    ensures
        !accepts(place_proof(location, timestamp), other_location, other_timestamp),
{
    lemma_digest_text_differs(
        place_claim(location, timestamp),
        place_claim(other_location, other_timestamp),
    );
}

/// The claims of two distinct locations read differently, whatever their
/// times, where the coordinates are written as numbers.
pub proof fn lemma_claims_of_two_locations_differ(
    location: LocationView,
    timestamp: Timestamp,
    other_location: LocationView,
    other_timestamp: Timestamp,
)
    requires
        is_numeric(location),
        is_numeric(other_location),
        location != other_location,
    ensures
        place_claim(location, timestamp) != place_claim(other_location, other_timestamp),
{
    let one = place_claim(location, timestamp);
    let other = place_claim(other_location, other_timestamp);
    if one == other {
        let lat = location.latitude;
        let lon = location.longitude;
        let other_lat = other_location.latitude;
        let other_lon = other_location.longitude;
        let n = lat.len() as int;
        let m = other_lat.len() as int;
        assert(one[1 + n] == ',');
        assert(other[1 + m] == ',');
        if n < m {
            assert(other[1 + n] == other_lat[n]);
        } else if m < n {
            assert(one[1 + m] == lat[m]);
        }
        assert(n == m);
        assert forall|i: int| 0 <= i < n implies lat[i] == other_lat[i] by {
            assert(one[1 + i] == lat[i]);
            assert(other[1 + i] == other_lat[i]);
        }
        assert(lat =~= other_lat);
        let start = 3 + n;
        let k = lon.len() as int;
        let l = other_lon.len() as int;
        assert(one[start + k] == ')');
        assert(other[start + l] == ')');
        if k < l {
            assert(other[start + k] == other_lon[k]);
        } else if l < k {
            assert(one[start + l] == lon[l]);
        }
        assert(k == l);
        assert forall|i: int| 0 <= i < k implies lon[i] == other_lon[i] by {
            assert(one[start + i] == lon[i]);
            assert(other[start + i] == other_lon[i]);
        }
        assert(lon =~= other_lon);
    }
}

/// A proof of place generated for one location is rejected for another
/// location, at the same time or at another, where the coordinates are
/// written as numbers and SHA-256 tells the two claims apart.
pub proof fn lemma_proof_is_rejected_for_another_location(
    location: LocationView,
    timestamp: Timestamp,
    other_location: LocationView,
    other_timestamp: Timestamp,
)
    requires
        is_numeric(location),
        is_numeric(other_location),
        location != other_location,
        sha256_tells_apart(
            encode_utf8(place_claim(location, timestamp)),
            encode_utf8(place_claim(other_location, other_timestamp)),
        ),
    ensures
        !accepts(place_proof(location, timestamp), other_location, other_timestamp),
{
    lemma_claims_of_two_locations_differ(location, timestamp, other_location, other_timestamp);
    lemma_proof_is_rejected_for_another_claim(
        location,
        timestamp,
        other_location,
        other_timestamp,
    );
}

/// A proof of place generated for one time is rejected for the same location
/// at a time that is written differently, where SHA-256 tells the two claims
/// apart.
pub proof fn lemma_proof_is_rejected_for_another_time(
    location: LocationView,
    timestamp: Timestamp,
    other_timestamp: Timestamp,
)
    requires
        timestamp.text() != other_timestamp.text(),
        sha256_tells_apart(
            encode_utf8(place_claim(location, timestamp)),
            encode_utf8(place_claim(location, other_timestamp)),
        ),
    ensures
        !accepts(place_proof(location, timestamp), location, other_timestamp),
{
    let one = place_claim(location, timestamp);
    let other = place_claim(location, other_timestamp);
    if one == other {
        let start = location_text(location).len() as int;
        assert(one.subrange(start, one.len() as int) =~= timestamp.text());
        assert(other.subrange(start, other.len() as int) =~= other_timestamp.text());
    }
    lemma_proof_is_rejected_for_another_claim(location, timestamp, location, other_timestamp);
}

} // verus!
