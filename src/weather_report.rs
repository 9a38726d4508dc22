use vstd::prelude::*;

verus! {

/// Which of the three readings of a forecast is shown.
#[derive(Clone, Copy, Debug, PartialEq, Eq, Structural)]
pub enum WeatherType {
    Wind,
    Rain,
    Sun,
}

/// The fixed position of a channel in tab order.
pub open spec fn ordinal_of(w: WeatherType) -> nat {
    match w {
        WeatherType::Wind => 0,
        WeatherType::Rain => 1,
        WeatherType::Sun => 2,
    }
}

/// The channel at a tab position, if there is one.
pub open spec fn channel_at(n: int) -> Option<WeatherType> {
    if n == 0 {
        Some(WeatherType::Wind)
    } else if n == 1 {
        Some(WeatherType::Rain)
    } else if n == 2 {
        Some(WeatherType::Sun)
    } else {
        None
    }
}

/// The display label of a channel.
pub open spec fn label_of(w: WeatherType) -> Seq<char> {
    match w {
        WeatherType::Wind => seq!['W', 'i', 'n', 'd'],
        WeatherType::Rain => seq!['R', 'a', 'i', 'n'],
        WeatherType::Sun => seq!['S', 'u', 'n'],
    }
}

/// The channel whose label is `s`, if there is one.
pub open spec fn channel_labelled(s: Seq<char>) -> Option<WeatherType> {
    if s == label_of(WeatherType::Wind) {
        Some(WeatherType::Wind)
    } else if s == label_of(WeatherType::Rain) {
        Some(WeatherType::Rain)
    } else if s == label_of(WeatherType::Sun) {
        Some(WeatherType::Sun)
    } else {
        None
    }
}

impl From<WeatherType> for usize {
    fn from(weather_type: WeatherType) -> (r: usize) {
        match weather_type {
            WeatherType::Wind => 0,
            WeatherType::Rain => 1,
            WeatherType::Sun => 2,
        }
    }
}

impl vstd::std_specs::convert::FromSpecImpl<WeatherType> for usize {
    open spec fn obeys_from_spec() -> bool {
        true
    }

    open spec fn from_spec(weather_type: WeatherType) -> usize {
        ordinal_of(weather_type) as usize
    }
}

/// Whether the character sequence of `s` equals `t`.
fn str_matches(s: &str, t: &str) -> (r: bool)
    ensures
        r == (s@ == t@),
{
    let n = s.unicode_len();
    if n != t.unicode_len() {
        return false;
    }
    let mut i: usize = 0;
    while i < n
        invariant
            n == s@.len(),
            n == t@.len(),
            0 <= i <= n,
            s@.subrange(0, i as int) == t@.subrange(0, i as int),
        decreases n - i,
    {
        if s.get_char(i) != t.get_char(i) {
            return false;
        }
        assert(s@.subrange(0, i + 1) =~= s@.subrange(0, i as int).push(s@[i as int]));
        assert(t@.subrange(0, i + 1) =~= t@.subrange(0, i as int).push(t@[i as int]));
        i = i + 1;
    }
    assert(s@ =~= s@.subrange(0, n as int));
    assert(t@ =~= t@.subrange(0, n as int));
    true
}

impl WeatherType {
    /// The position of this channel in tab order: 0, 1 or 2.
    pub fn ordinal(self) -> (r: usize)
        ensures
            r == ordinal_of(self),
    {
        usize::from(self)
    }

    /// The channel at tab position `number`; positions past the third are a
    /// programming error and are ruled out by the precondition.
    pub fn from_ordinal(number: usize) -> (r: WeatherType)
        requires
            number < 3,
        ensures
            Some(r) == channel_at(number as int),
    {
        match number {
            0 => WeatherType::Wind,
            1 => WeatherType::Rain,
            _ => WeatherType::Sun,
        }
    }

    /// The channel at tab position `number`, or `None` past the third.
    pub fn try_from_ordinal(number: usize) -> (r: Option<WeatherType>)
        ensures
            r == channel_at(number as int),
    {
        if number < 3 {
            Some(WeatherType::from_ordinal(number))
        } else {
            None
        }
    }

    /// The display label of this channel.
    pub fn label(self) -> (r: &'static str)
        ensures
            r@ == label_of(self),
    {
        let r = match self {
            WeatherType::Wind => "Wind",
            WeatherType::Rain => "Rain",
            WeatherType::Sun => "Sun",
        };
        proof {
            reveal_strlit("Wind");
            reveal_strlit("Rain");
            reveal_strlit("Sun");
        }
        assert(r@ =~= label_of(self));
        r
    }

    /// The channel whose label is `s`, or `None` for any other text.
    pub fn from_label(s: &str) -> (r: Option<WeatherType>)
        ensures
            r == channel_labelled(s@),
    {
        let wind = WeatherType::Wind.label();
        let rain = WeatherType::Rain.label();
        let sun = WeatherType::Sun.label();
        if str_matches(s, wind) {
            Some(WeatherType::Wind)
        } else if str_matches(s, rain) {
            Some(WeatherType::Rain)
        } else if str_matches(s, sun) {
            Some(WeatherType::Sun)
        } else {
            None
        }
    }
}

/// The labels of all channels, in tab order.
pub fn get_weather_type_strings() -> (r: Vec<&'static str>)
    ensures
        r@.len() == 3,
        forall|i: int| 0 <= i < 3 ==> (#[trigger] r@[i])@ == label_of(channel_at(i).unwrap()),
{
    let mut r: Vec<&'static str> = Vec::new();
    let mut i: usize = 0;
    while i < 3
        invariant
            0 <= i <= 3,
            r@.len() == i,
            forall|j: int| 0 <= j < i ==> (#[trigger] r@[j])@ == label_of(channel_at(j).unwrap()),
        decreases 3 - i,
    {
        let weather_type = WeatherType::from_ordinal(i);
        r.push(weather_type.label());
        i = i + 1;
    }
    r
}

/// Every tab position below three names a channel whose ordinal is that
/// position and whose label names it back; no other position names a channel.
pub proof fn lemma_channel_round_trip(n: int)
    ensures
        0 <= n < 3 ==> channel_at(n) is Some && ordinal_of(channel_at(n).unwrap()) == n
            && channel_labelled(label_of(channel_at(n).unwrap())) == channel_at(n),
        !(0 <= n < 3) ==> channel_at(n) is None,
{
    assert(label_of(WeatherType::Wind) != label_of(WeatherType::Rain)) by {
        assert(label_of(WeatherType::Wind)[0] != label_of(WeatherType::Rain)[0]);
    }
    assert(label_of(WeatherType::Wind) != label_of(WeatherType::Sun)) by {
        assert(label_of(WeatherType::Wind).len() != label_of(WeatherType::Sun).len());
    }
    assert(label_of(WeatherType::Rain) != label_of(WeatherType::Sun)) by {
        assert(label_of(WeatherType::Rain).len() != label_of(WeatherType::Sun).len());
    }
}

/// Every channel sits at its own ordinal.
pub proof fn lemma_ordinal_round_trip(w: WeatherType)
    ensures
        channel_at(ordinal_of(w) as int) == Some(w),
{
}

/// One forecast: the wind, rain and sun readings, each held as the bit
/// pattern of an IEEE 754 single-precision number.
#[derive(Clone, Copy, Debug, PartialEq, Eq, Structural)]
pub struct WeatherReport {
    sunshine: u32,
    wind_speed: u32,
    rainfall: u32,
}

/// The reading of `report` on `weather_type`.
pub open spec fn reading_of(report: WeatherReport, weather_type: WeatherType) -> u32 {
    match weather_type {
        WeatherType::Rain => report.rainfall_spec(),
        WeatherType::Sun => report.sunshine_spec(),
        WeatherType::Wind => report.wind_speed_spec(),
    }
}

impl WeatherReport {
    pub closed spec fn sunshine_spec(self) -> u32 {
        self.sunshine
    }

    pub closed spec fn wind_speed_spec(self) -> u32 {
        self.wind_speed
    }

    pub closed spec fn rainfall_spec(self) -> u32 {
        self.rainfall
    }

    /// A forecast from its three readings.
    pub fn new(sunshine: u32, wind_speed: u32, rainfall: u32) -> (r: WeatherReport)
        ensures
            r.sunshine_spec() == sunshine,
            r.wind_speed_spec() == wind_speed,
            r.rainfall_spec() == rainfall,
    {
        WeatherReport { sunshine, wind_speed, rainfall }
    }

    /// The reading on one channel.
    pub fn get(&self, weather_type: WeatherType) -> (r: u32)
        ensures
            r == reading_of(*self, weather_type),
    {
        match weather_type {
            WeatherType::Rain => self.rainfall,
            WeatherType::Sun => self.sunshine,
            WeatherType::Wind => self.wind_speed,
        }
    }
}

impl Default for WeatherReport {
    /// A forecast of zero on every channel.
    fn default() -> (r: Self)
        ensures
            r.sunshine_spec() == 0,
            r.wind_speed_spec() == 0,
            r.rainfall_spec() == 0,
    {
        WeatherReport { sunshine: 0, wind_speed: 0, rainfall: 0 }
    }
}

} // verus!
