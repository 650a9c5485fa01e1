//! The weather tool: reading its arguments, picking the place a city name
//! means, and describing the weather it reports.
use vstd::prelude::*;
use vstd::string::*;
use crate::app::ascii_lower;
use crate::text::str_eq;

verus! {

/// The weather tool, run by the server itself.
pub struct CurrentWeatherTool;

/// The weather tool's arguments.
pub struct WeatherArgs {
    /// City name to look up, for example Berlin or San Francisco.
    pub city: String,
    /// Optional country name or country code to disambiguate the city.
    pub country: Option<String>,
    /// Optional temperature unit; celsius unless fahrenheit is asked for.
    pub unit: Option<String>,
}

/// Why the weather tool failed, as shown to the model.
pub struct WeatherToolError(pub String);

impl WeatherToolError {
    pub fn city_not_found(city: &str, country: Option<&str>) -> (r: Self)
        ensures
            country matches Some(c) ==> r.0@ == "Could not find a city named '"@ + city@ + "' in '"@
                + c@ + "'. Please check the spelling."@,
            country is None ==> r.0@ == "Could not find a city named '"@ + city@
                + "'. Please check the spelling."@,
    {
        let mut m = "Could not find a city named '".to_owned();
        m.append(city);
        match country {
            Some(c) => {
                m.append("' in '");
                m.append(c);
                m.append("'. Please check the spelling.");
            },
            None => {
                m.append("'. Please check the spelling.");
            },
        }
        WeatherToolError(m)
    }

    pub fn lookup_failed(city: &str) -> (r: Self)
        ensures
            r.0@ == "Weather lookup failed for '"@ + city@ + "'. Please try again later."@,
    {
        let mut m = "Weather lookup failed for '".to_owned();
        m.append(city);
        m.append("'. Please try again later.");
        WeatherToolError(m)
    }

    pub fn message(&self) -> (r: String)
        ensures
            r@ == self.0@,
    {
        self.0.clone()
    }
}

/// Why a call of one of the client's tools failed, as shown to the model.
pub struct ProxyToolError {
    pub message: String,
}

impl ProxyToolError {
    pub fn message(&self) -> (r: String)
        ensures
            r@ == self.message@,
    {
        self.message.clone()
    }
}

#[derive(Clone, Copy, Debug, PartialEq, Eq, Structural)]
pub enum TemperatureUnit {
    Celsius,
    Fahrenheit,
}

/// `a` and `b` are equal once ASCII letters are lowercased (as
/// `str::eq_ignore_ascii_case`).
pub open spec fn eq_ignore_case(a: Seq<char>, b: Seq<char>) -> bool {
    a.len() == b.len() && forall|i: int| 0 <= i < a.len() ==> ascii_lower(#[trigger] a[i]) == ascii_lower(b[i])
}

pub fn eq_ignore_ascii_case(a: &str, b: &str) -> (r: bool)
    ensures
        r == eq_ignore_case(a@, b@),
{
    let x = crate::text::to_chars(a);
    let y = crate::text::to_chars(b);
    if x.len() != y.len() {
        return false;
    }
    let mut i: usize = 0;
    while i < x.len()
        invariant
            x@ == a@,
            y@ == b@,
            x.len() == y.len(),
            i <= x.len(),
            forall|j: int| 0 <= j < i ==> ascii_lower(#[trigger] a@[j]) == ascii_lower(b@[j]),
        decreases x.len() - i,
    {
        if crate::app::to_ascii_lower(x[i]) != crate::app::to_ascii_lower(y[i]) {
            return false;
        }
        i = i + 1;
    }
    true
}

/// The unit asked for: fahrenheit for `fahrenheit`, `f` or `imperial` in
/// any case, celsius otherwise.
pub open spec fn unit_of(unit: Option<Seq<char>>) -> TemperatureUnit {
    match unit {
        Some(u) => {
            let l = u.map_values(|c: char| ascii_lower(c));
            if l == "fahrenheit"@ || l == "f"@ || l == "imperial"@ {
                TemperatureUnit::Fahrenheit
            } else {
                TemperatureUnit::Celsius
            }
        },
        None => TemperatureUnit::Celsius,
    }
}

impl TemperatureUnit {
    pub fn from_arg(unit: Option<&str>) -> (r: Self)
        ensures
            r == unit_of(
                match unit {
                    Some(u) => Some(u@),
                    None => None,
                },
            ),
    {
        match unit {
            Some(u) => {
                let chars = crate::text::to_chars(u);
                let mut lowered: Vec<char> = Vec::new();
                let mut i: usize = 0;
                while i < chars.len()
                    invariant
                        chars@ == u@,
                        i <= chars.len(),
                        lowered@ == u@.take(i as int).map_values(|c: char| ascii_lower(c)),
                    decreases chars.len() - i,
                {
                    lowered.push(crate::app::to_ascii_lower(chars[i]));
                    i = i + 1;
                    assert(lowered@ =~= u@.take(i as int).map_values(|c: char| ascii_lower(c)));
                }
                assert(u@.take(u@.len() as int) =~= u@);
                let l = crate::text::from_chars(&lowered);
                if str_eq(l.as_str(), "fahrenheit") || str_eq(l.as_str(), "f") || str_eq(
                    l.as_str(),
                    "imperial",
                ) {
                    TemperatureUnit::Fahrenheit
                } else {
                    TemperatureUnit::Celsius
                }
            },
            None => TemperatureUnit::Celsius,
        }
    }

    /// The unit as the forecast service names it.
    pub fn as_query_value(self) -> (r: &'static str)
        ensures
            self == TemperatureUnit::Celsius ==> r@ == "celsius"@,
            self == TemperatureUnit::Fahrenheit ==> r@ == "fahrenheit"@,
    {
        match self {
            TemperatureUnit::Celsius => "celsius",
            TemperatureUnit::Fahrenheit => "fahrenheit",
        }
    }

    /// The unit as the report names it.
    pub fn label(self) -> (r: &'static str)
        ensures
            self == TemperatureUnit::Celsius ==> r@ == "celsius"@,
            self == TemperatureUnit::Fahrenheit ==> r@ == "fahrenheit"@,
    {
        match self {
            TemperatureUnit::Celsius => "celsius",
            TemperatureUnit::Fahrenheit => "fahrenheit",
        }
    }
}

/// A place the geocoding service found, as far as the tool reads it (its
/// coordinates are passed on untouched by the caller).
pub struct Place {
    pub name: String,
    pub country: Option<String>,
    pub country_code: Option<String>,
    pub admin1: Option<String>,
}

/// The place lies in the country asked for (by name or code, in any case),
/// or no country was asked for.
pub open spec fn in_country(p: Place, country: Option<Seq<char>>) -> bool {
    match country {
        None => true,
        Some(c) => (p.country matches Some(n) && eq_ignore_case(n@, c)) || (p.country_code matches Some(
            n,
        ) && eq_ignore_case(n@, c)),
    }
}

pub fn country_matches(place: &Place, country: Option<&str>) -> (r: bool)
    ensures
        r == in_country(
            *place,
            match country {
                Some(c) => Some(c@),
                None => None,
            },
        ),
{
    let c = match country {
        None => {
            return true;
        },
        Some(c) => c,
    };
    let by_name = match &place.country {
        Some(n) => eq_ignore_ascii_case(n.as_str(), c),
        None => false,
    };
    if by_name {
        return true;
    }
    match &place.country_code {
        Some(n) => eq_ignore_ascii_case(n.as_str(), c),
        None => false,
    }
}

/// Index of the first place in the country asked for, else of the first
/// place; `None` when nothing was found.
pub fn pick_place(places: &Vec<Place>, country: Option<&str>) -> (r: Option<usize>)
    ensures
        match r {
            Some(i) => {
                &&& i < places@.len()
                &&& (in_country(places@[i as int], match country { Some(c) => Some(c@), None => None })
                    && forall|j: int| 0 <= j < i ==> !in_country(#[trigger] places@[j], match country {
                    Some(c) => Some(c@),
                    None => None,
                })) || (i == 0 && forall|j: int| 0 <= j < places@.len() ==> !in_country(
                    #[trigger] places@[j],
                    match country {
                        Some(c) => Some(c@),
                        None => None,
                    },
                ))
            },
            None => places@.len() == 0,
        },
{
    let ghost cv = match country {
        Some(c) => Some(c@),
        None => None,
    };
    let mut i: usize = 0;
    while i < places.len()
        invariant
            i <= places@.len(),
            cv == (match country {
                Some(c) => Some(c@),
                None => None,
            }),
            forall|j: int| 0 <= j < i ==> !in_country(#[trigger] places@[j], cv),
        decreases places.len() - i,
    {
        if country_matches(&places[i], country) {
            return Some(i);
        }
        i = i + 1;
    }
    if places.len() > 0 {
        Some(0)
    } else {
        None
    }
}

/// How a place is named: its name, region and country, those that are
/// known, joined by `, `.
pub open spec fn place_label(p: Place) -> Seq<char> {
    let with_region = match p.admin1 {
        Some(a) => p.name@ + ", "@ + a@,
        None => p.name@,
    };
    match p.country {
        Some(c) => with_region + ", "@ + c@,
        None => with_region,
    }
}

impl Place {
    pub fn display_name(&self) -> (r: String)
        ensures
            r@ == place_label(*self),
    {
        let mut s = self.name.clone();
        if let Some(a) = &self.admin1 {
            s.append(", ");
            s.append(a.as_str());
        }
        if let Some(c) = &self.country {
            s.append(", ");
            s.append(c.as_str());
        }
        s
    }
}

/// What a weather code of the forecast service means.
pub open spec fn weather_text(code: Option<i64>) -> Seq<char> {
    match code {
        Some(c) => if c == 0 {
            "Clear sky"@
        } else if 1 <= c <= 3 {
            "Partly cloudy"@
        } else if c == 45 || c == 48 {
            "Foggy"@
        } else if c == 51 || c == 53 || c == 55 || c == 56 || c == 57 {
            "Drizzle"@
        } else if c == 61 || c == 63 || c == 65 || c == 66 || c == 67 {
            "Rain"@
        } else if c == 71 || c == 73 || c == 75 || c == 77 {
            "Snow"@
        } else if 80 <= c <= 82 {
            "Rain showers"@
        } else if c == 85 || c == 86 {
            "Snow showers"@
        } else if c == 95 || c == 96 || c == 99 {
            "Thunderstorm"@
        } else {
            "Weather conditions unavailable"@
        },
        None => "Weather conditions unavailable"@,
    }
}

pub fn weather_summary(code: Option<i64>) -> (r: String)
    ensures
        r@ == weather_text(code),
        code matches Some(c) && (c == 61 || c == 63 || c == 65 || c == 66 || c == 67) ==> r@ == "Rain"@,
        code matches Some(c) && (c == 71 || c == 73 || c == 75 || c == 77) ==> r@ == "Snow"@,
{
    let s = match code {
        Some(c) => if c == 0 {
            "Clear sky"
        } else if 1 <= c && c <= 3 {
            "Partly cloudy"
        } else if c == 45 || c == 48 {
            "Foggy"
        } else if c == 51 || c == 53 || c == 55 || c == 56 || c == 57 {
            "Drizzle"
        } else if c == 61 || c == 63 || c == 65 || c == 66 || c == 67 {
            "Rain"
        } else if c == 71 || c == 73 || c == 75 || c == 77 {
            "Snow"
        } else if 80 <= c && c <= 82 {
            "Rain showers"
        } else if c == 85 || c == 86 {
            "Snow showers"
        } else if c == 95 || c == 96 || c == 99 {
            "Thunderstorm"
        } else {
            "Weather conditions unavailable"
        },
        None => "Weather conditions unavailable",
    };
    s.to_owned()
}

/// The weather codes and their descriptions: 0 is a clear sky; 1 to 3
/// partly cloudy; 45 and 48 fog; 51, 53, 55, 56 and 57 drizzle; 61, 63,
/// 65, 66 and 67 rain; 71, 73, 75 and 77 snow; 80 to 82 rain showers; 85
/// and 86 snow showers; 95, 96 and 99 a thunderstorm; any other code, or
/// none, leaves the conditions unavailable.
pub proof fn law_weather_code_table(c: i64)
    ensures
        c == 0 ==> weather_text(Some(c)) == "Clear sky"@,
        1 <= c <= 3 ==> weather_text(Some(c)) == "Partly cloudy"@,
        c == 45 || c == 48 ==> weather_text(Some(c)) == "Foggy"@,
        c == 51 || c == 53 || c == 55 || c == 56 || c == 57 ==> weather_text(Some(c)) == "Drizzle"@,
        c == 61 || c == 63 || c == 65 || c == 66 || c == 67 ==> weather_text(Some(c)) == "Rain"@,
        c == 71 || c == 73 || c == 75 || c == 77 ==> weather_text(Some(c)) == "Snow"@,
        80 <= c <= 82 ==> weather_text(Some(c)) == "Rain showers"@,
        c == 85 || c == 86 ==> weather_text(Some(c)) == "Snow showers"@,
        c == 95 || c == 96 || c == 99 ==> weather_text(Some(c)) == "Thunderstorm"@,
        !(0 <= c <= 3 || c == 45 || c == 48 || c == 51 || c == 53 || c == 55 || c == 56 || c == 57
            || c == 61 || c == 63 || c == 65 || c == 66 || c == 67 || c == 71 || c == 73 || c == 75
            || c == 77 || 80 <= c <= 82 || c == 85 || c == 86 || c == 95 || c == 96 || c == 99)
            ==> weather_text(Some(c)) == "Weather conditions unavailable"@,
        weather_text(None) == "Weather conditions unavailable"@,
{
}

proof fn lemma_lowered_is(u: Seq<char>, w: Seq<char>)
    requires
        forall|i: int| 0 <= i < w.len() ==> !('A' <= #[trigger] w[i] <= 'Z'),
    ensures
        (u.map_values(|c: char| ascii_lower(c)) == w) <==> eq_ignore_case(u, w),
{
    let l = u.map_values(|c: char| ascii_lower(c));
    if eq_ignore_case(u, w) {
        assert forall|i: int| 0 <= i < w.len() implies l[i] == w[i] by {
            assert(ascii_lower(u[i]) == ascii_lower(w[i]));
        }
        assert(l =~= w);
    }
    if l == w {
        assert forall|i: int| 0 <= i < u.len() implies ascii_lower(#[trigger] u[i]) == ascii_lower(w[i]) by {
            assert(l[i] == ascii_lower(u[i]));
        }
    }
}

/// Temperatures are given in fahrenheit exactly when the unit asked for is
/// `fahrenheit`, `f` or `imperial`, in any mix of upper and lower case;
/// any other unit, or none, gives celsius.
pub proof fn law_unit_choice(u: Seq<char>)
    ensures
        (unit_of(Some(u)) == TemperatureUnit::Fahrenheit) <==> (eq_ignore_case(u, "fahrenheit"@)
            || eq_ignore_case(u, "f"@) || eq_ignore_case(u, "imperial"@)),
        unit_of(Some(u)) != TemperatureUnit::Fahrenheit ==> unit_of(Some(u)) == TemperatureUnit::Celsius,
        unit_of(None) == TemperatureUnit::Celsius,
{
    reveal_strlit("fahrenheit");
    reveal_strlit("f");
    reveal_strlit("imperial");
    lemma_lowered_is(u, "fahrenheit"@);
    lemma_lowered_is(u, "f"@);
    lemma_lowered_is(u, "imperial"@);
}

} // verus!
