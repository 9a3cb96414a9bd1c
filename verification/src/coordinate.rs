//! Geodetic datum classification and the geographic facade.
//!
//! A record names its datum with a two-digit code and its position as
//! degree-minute-second text. The facade binds the two together and hands
//! the engine a decimal point plus the transform route the code demands.

use vstd::prelude::*;

use crate::dms::{spec_dms_nanos, spec_dms_valid, DmsCoordinate};
use crate::text::{spec_trim, trim_spaces};
use crate::transform::{
    spec_route_of, spec_start, GridPoint, TransformMode, TransformSession, POINT_LIMIT,
};

verus! {

/// The geodetic reference frames a borehole record can name.
#[derive(Debug, Clone, Copy, PartialEq, Eq, Structural)]
pub enum GeodeticDatum {
    /// Historic Japanese datum (Tokyo Datum), EPSG:4301.
    Tokyo,
    /// Japanese Geodetic Datum 2000, EPSG:4612.
    Jgd2000,
    /// Japanese Geodetic Datum 2011, EPSG:6668.
    Jgd2011,
    /// World Geodetic System 1984, EPSG:4326.
    Wgs84,
    /// Any code outside the fixed mapping.
    Unknown,
}

/// The datum named by a two-digit code, after trimming whitespace:
/// "00" is Tokyo, "01" is JGD2000, "02" is JGD2011, anything else Unknown.
pub open spec fn spec_datum_from_code(s: Seq<char>) -> GeodeticDatum {
    let t = spec_trim(s);
    if t =~= seq!['0', '0'] {
        GeodeticDatum::Tokyo
    } else if t =~= seq!['0', '1'] {
        GeodeticDatum::Jgd2000
    } else if t =~= seq!['0', '2'] {
        GeodeticDatum::Jgd2011
    } else {
        GeodeticDatum::Unknown
    }
}

impl GeodeticDatum {
    /// Classifies a textual datum code; the mapping is total, every code
    /// outside the three known ones is `Unknown`.
    pub fn from_code(s: &str) -> (r: Self)
        ensures
            r == spec_datum_from_code(s@),
    {
        let t = trim_spaces(s);
        let n = t.unicode_len();
        if n != 2 {
            return GeodeticDatum::Unknown;
        }
        let c0 = t.get_char(0);
        let c1 = t.get_char(1);
        proof {
            assert(t@ =~= seq![t@[0], t@[1]]);
        }
        if c0 != '0' {
            return GeodeticDatum::Unknown;
        }
        if c1 == '0' {
            GeodeticDatum::Tokyo
        } else if c1 == '1' {
            GeodeticDatum::Jgd2000
        } else if c1 == '2' {
            GeodeticDatum::Jgd2011
        } else {
            GeodeticDatum::Unknown
        }
    }

    /// The standard geographic reference identifier of the datum;
    /// `Unknown` has none.
    pub fn epsg_code(&self) -> (r: Option<&'static str>)
        ensures
            match self {
                GeodeticDatum::Tokyo => r == Some("EPSG:4301"),
                GeodeticDatum::Jgd2000 => r == Some("EPSG:4612"),
                GeodeticDatum::Jgd2011 => r == Some("EPSG:6668"),
                GeodeticDatum::Wgs84 => r == Some("EPSG:4326"),
                GeodeticDatum::Unknown => r is None,
            },
    {
        match self {
            GeodeticDatum::Tokyo => Some("EPSG:4301"),
            GeodeticDatum::Jgd2000 => Some("EPSG:4612"),
            GeodeticDatum::Jgd2011 => Some("EPSG:6668"),
            GeodeticDatum::Wgs84 => Some("EPSG:4326"),
            GeodeticDatum::Unknown => None,
        }
    }
}

/// A record's position: degree-minute-second longitude and latitude, and
/// the textual geodetic datum code, all as they stand in the record.
#[derive(Debug, Clone, PartialEq)]
pub struct GeoLocation {
    pub longitude: DmsCoordinate,
    pub latitude: DmsCoordinate,
    pub geodetic_system: Option<String>,
}

/// The datum code a location dispatches under: its own code, or "02"
/// (JGD2011) when the record carries none.
pub open spec fn spec_geo_code(g: &GeoLocation) -> Seq<char> {
    match g.geodetic_system {
        Some(s) => s@,
        None => "02"@,
    }
}

impl GeoLocation {
    /// Both decimal coordinates in nano-arcseconds, as (longitude,
    /// latitude), with no datum shift; absent when any component is
    /// missing or malformed.
    pub fn to_decimal(&self) -> (r: Option<(i64, i64)>)
        ensures
            r is Some <==> spec_dms_valid(&self.longitude) && spec_dms_valid(&self.latitude),
            r matches Some(v) ==> v.0 == spec_dms_nanos(&self.longitude) && v.1 == spec_dms_nanos(
                &self.latitude,
            ),
    {
        let lng = match self.longitude.to_decimal() {
            Some(v) => v,
            None => {
                return None;
            },
        };
        let lat = match self.latitude.to_decimal() {
            Some(v) => v,
            None => {
                return None;
            },
        };
        Some((lng, lat))
    }

    /// The datum of the record's code; `Unknown` when the record carries
    /// no code at all.
    pub fn datum(&self) -> (r: GeodeticDatum)
        ensures
            match self.geodetic_system {
                Some(s) => r == spec_datum_from_code(s@),
                None => r == GeodeticDatum::Unknown,
            },
    {
        match &self.geodetic_system {
            Some(s) => GeodeticDatum::from_code(s.as_str()),
            None => GeodeticDatum::Unknown,
        }
    }

    /// Starts the conversion of this location into the modern frame
    /// (JGD2011, coincident with WGS84 at survey precision): the returned
    /// session holds the decimal point and awaits the stages its datum
    /// code demands; the caller drives it against the grid provider.
    /// Absent exactly when a coordinate component is missing or malformed.
    pub fn start_wgs84_conversion(&self) -> (r: Option<TransformSession>)
        ensures
            r is Some <==> spec_dms_valid(&self.longitude) && spec_dms_valid(&self.latitude),
            r matches Some(t) ==> {
                &&& t == spec_start(
                    spec_route_of(spec_geo_code(self)),
                    GridPoint {
                        latitude: spec_dms_nanos(&self.latitude) as i64,
                        longitude: spec_dms_nanos(&self.longitude) as i64,
                        altitude: 0,
                    },
                    TransformMode::Horizontal,
                )
                &&& t.inv()
            },
    {
        let lng = match self.longitude.to_decimal() {
            Some(v) => v,
            None => {
                return None;
            },
        };
        let lat = match self.latitude.to_decimal() {
            Some(v) => v,
            None => {
                return None;
            },
        };
        let code: &str = match &self.geodetic_system {
            Some(s) => s.as_str(),
            None => "02",
        };
        Some(TransformSession::horizontal(code, lat, lng))
    }
}

/// Copies an optional textual field.
fn clone_field(x: &Option<String>) -> (r: Option<String>)
    ensures
        r == *x,
{
    match x {
        Some(s) => Some(s.clone()),
        None => None,
    }
}

/// Builds the location view out of the six coordinate fields and the
/// datum code of one record.
fn location_from_fields(
    longitude_degree: &Option<String>,
    longitude_minute: &Option<String>,
    longitude_second: &Option<String>,
    latitude_degree: &Option<String>,
    latitude_minute: &Option<String>,
    latitude_second: &Option<String>,
    geodetic_system: &Option<String>,
) -> (r: GeoLocation)
    ensures
        r == (GeoLocation {
            longitude: DmsCoordinate {
                degree: *longitude_degree,
                minute: *longitude_minute,
                second: *longitude_second,
            },
            latitude: DmsCoordinate {
                degree: *latitude_degree,
                minute: *latitude_minute,
                second: *latitude_second,
            },
            geodetic_system: *geodetic_system,
        }),
{
    GeoLocation {
        longitude: DmsCoordinate {
            degree: clone_field(longitude_degree),
            minute: clone_field(longitude_minute),
            second: clone_field(longitude_second),
        },
        latitude: DmsCoordinate {
            degree: clone_field(latitude_degree),
            minute: clone_field(latitude_minute),
            second: clone_field(latitude_second),
        },
        geodetic_system: clone_field(geodetic_system),
    }
}

/// Access to the geographic location of a record, whatever its schema
/// version.
pub trait GeoCoordinate {
    /// The location the record carries.
    spec fn spec_geo_location(&self) -> GeoLocation;

    /// Reads the record's coordinate fields into one location value.
    fn geo_location(&self) -> (r: GeoLocation)
        ensures
            r == self.spec_geo_location(),
    ;
}

impl GeoCoordinate for crate::boring_structs_110::Boring110 {
    open spec fn spec_geo_location(&self) -> GeoLocation {
        let lng_lat = self.title.longitude_latitude;
        GeoLocation {
            longitude: DmsCoordinate {
                degree: lng_lat.longitude_degree,
                minute: lng_lat.longitude_minute,
                second: lng_lat.longitude_second,
            },
            latitude: DmsCoordinate {
                degree: lng_lat.latitude_degree,
                minute: lng_lat.latitude_minute,
                second: lng_lat.latitude_second,
            },
            geodetic_system: lng_lat.geodetic_system,
        }
    }

    fn geo_location(&self) -> (r: GeoLocation) {
        let lng_lat = &self.title.longitude_latitude;
        location_from_fields(
            &lng_lat.longitude_degree,
            &lng_lat.longitude_minute,
            &lng_lat.longitude_second,
            &lng_lat.latitude_degree,
            &lng_lat.latitude_minute,
            &lng_lat.latitude_second,
            &lng_lat.geodetic_system,
        )
    }
}

impl GeoCoordinate for crate::boring_structs_210::Boring210 {
    open spec fn spec_geo_location(&self) -> GeoLocation {
        let lng_lat = self.title.longitude_latitude;
        GeoLocation {
            longitude: DmsCoordinate {
                degree: lng_lat.longitude_degree,
                minute: lng_lat.longitude_minute,
                second: lng_lat.longitude_second,
            },
            latitude: DmsCoordinate {
                degree: lng_lat.latitude_degree,
                minute: lng_lat.latitude_minute,
                second: lng_lat.latitude_second,
            },
            geodetic_system: lng_lat.geodetic_system,
        }
    }

    fn geo_location(&self) -> (r: GeoLocation) {
        let lng_lat = &self.title.longitude_latitude;
        location_from_fields(
            &lng_lat.longitude_degree,
            &lng_lat.longitude_minute,
            &lng_lat.longitude_second,
            &lng_lat.latitude_degree,
            &lng_lat.latitude_minute,
            &lng_lat.latitude_second,
            &lng_lat.geodetic_system,
        )
    }
}

impl GeoCoordinate for crate::boring_structs_300::Boring300 {
    open spec fn spec_geo_location(&self) -> GeoLocation {
        let lng_lat = self.title.longitude_latitude;
        GeoLocation {
            longitude: DmsCoordinate {
                degree: lng_lat.longitude_degree,
                minute: lng_lat.longitude_minute,
                second: lng_lat.longitude_second,
            },
            latitude: DmsCoordinate {
                degree: lng_lat.latitude_degree,
                minute: lng_lat.latitude_minute,
                second: lng_lat.latitude_second,
            },
            geodetic_system: lng_lat.geodetic_system,
        }
    }

    fn geo_location(&self) -> (r: GeoLocation) {
        let lng_lat = &self.title.longitude_latitude;
        location_from_fields(
            &lng_lat.longitude_degree,
            &lng_lat.longitude_minute,
            &lng_lat.longitude_second,
            &lng_lat.latitude_degree,
            &lng_lat.latitude_minute,
            &lng_lat.latitude_second,
            &lng_lat.geodetic_system,
        )
    }
}

impl GeoCoordinate for crate::boring_structs_400::Boring400 {
    open spec fn spec_geo_location(&self) -> GeoLocation {
        let lng_lat = self.title.longitude_latitude;
        GeoLocation {
            longitude: DmsCoordinate {
                degree: lng_lat.longitude_degree,
                minute: lng_lat.longitude_minute,
                second: lng_lat.longitude_second,
            },
            latitude: DmsCoordinate {
                degree: lng_lat.latitude_degree,
                minute: lng_lat.latitude_minute,
                second: lng_lat.latitude_second,
            },
            geodetic_system: lng_lat.geodetic_system,
        }
    }

    fn geo_location(&self) -> (r: GeoLocation) {
        let lng_lat = &self.title.longitude_latitude;
        location_from_fields(
            &lng_lat.longitude_degree,
            &lng_lat.longitude_minute,
            &lng_lat.longitude_second,
            &lng_lat.latitude_degree,
            &lng_lat.latitude_minute,
            &lng_lat.latitude_second,
            &lng_lat.geodetic_system,
        )
    }
}

} // verus!
