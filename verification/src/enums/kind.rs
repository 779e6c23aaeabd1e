use crate::constants::sensor::SensorConstant;
use crate::values::text::{lower, same_text, to_lower, upper};
use vstd::prelude::*;
use vstd::string::*;

verus! {

/// The parts that the catalog knows.
#[derive(Clone, Copy, Debug, PartialEq, Eq, Structural)]
pub enum SensorKind {
    Bh1750,
    Bme280,
    Bme680,
    Ds3231sn,
    Lsm303dlhAccel,
    Lsm303dlhMag,
    Vl53l0x,
}

impl SensorKind {
    /// The lower-case short name of the part: its key in the catalog.
    pub open spec fn short_name(self) -> Seq<char> {
        match self {
            SensorKind::Bh1750 => "bh1750"@,
            SensorKind::Bme280 => "bme280"@,
            SensorKind::Bme680 => "bme680"@,
            SensorKind::Ds3231sn => "ds3231sn"@,
            SensorKind::Lsm303dlhAccel => "lsm303dlhaccel"@,
            SensorKind::Lsm303dlhMag => "lsm303dlhmag"@,
            SensorKind::Vl53l0x => "vl53l0x"@,
        }
    }

    /// The upper-case key under which the part's reading stands in a report.
    pub open spec fn key(self) -> Seq<char> {
        upper(self.short_name())
    }

    /// The part with exactly this short name, if the catalog has one.
    pub open spec fn named(name: Seq<char>) -> Option<SensorKind> {
        if name == SensorKind::Bh1750.short_name() {
            Some(SensorKind::Bh1750)
        } else if name == SensorKind::Bme280.short_name() {
            Some(SensorKind::Bme280)
        } else if name == SensorKind::Bme680.short_name() {
            Some(SensorKind::Bme680)
        } else if name == SensorKind::Ds3231sn.short_name() {
            Some(SensorKind::Ds3231sn)
        } else if name == SensorKind::Lsm303dlhAccel.short_name() {
            Some(SensorKind::Lsm303dlhAccel)
        } else if name == SensorKind::Lsm303dlhMag.short_name() {
            Some(SensorKind::Lsm303dlhMag)
        } else if name == SensorKind::Vl53l0x.short_name() {
            Some(SensorKind::Vl53l0x)
        } else {
            None
        }
    }

    /// The part that a configured name selects: the one whose short name is
    /// the name with its ASCII capitals made small.
    pub open spec fn lookup(name: Seq<char>) -> Option<SensorKind> {
        SensorKind::named(lower(name))
    }

    /// The short name of the part.
    pub fn name(&self) -> (s: &'static str)
        ensures
            s@ == self.short_name(),
    {
        match self {
            SensorKind::Bh1750 => SensorConstant::BH1750,
            SensorKind::Bme280 => SensorConstant::BME280,
            SensorKind::Bme680 => SensorConstant::BME680,
            SensorKind::Ds3231sn => SensorConstant::DS3231SN,
            SensorKind::Lsm303dlhAccel => SensorConstant::LSM303DLHACCEL,
            SensorKind::Lsm303dlhMag => SensorConstant::LSM303DLHMAG,
            SensorKind::Vl53l0x => SensorConstant::VL5310X,
        }
    }

    /// The key of the part in a report, in capitals.
    pub fn report_key(&self) -> (s: &'static str)
        ensures
            s@ == self.key(),
    {
        proof {
            self.lemma_key_text();
        }
        match self {
            SensorKind::Bh1750 => "BH1750",
            SensorKind::Bme280 => "BME280",
            SensorKind::Bme680 => "BME680",
            SensorKind::Ds3231sn => "DS3231SN",
            SensorKind::Lsm303dlhAccel => "LSM303DLHACCEL",
            SensorKind::Lsm303dlhMag => "LSM303DLHMAG",
            SensorKind::Vl53l0x => "VL53L0X",
        }
    }

    /// The part whose short name is exactly `name`.
    pub fn from_short_name(name: &str) -> (r: Option<SensorKind>)
        ensures
            r == SensorKind::named(name@),
    {
        if same_text(name, SensorConstant::BH1750) {
            Some(SensorKind::Bh1750)
        } else if same_text(name, SensorConstant::BME280) {
            Some(SensorKind::Bme280)
        } else if same_text(name, SensorConstant::BME680) {
            Some(SensorKind::Bme680)
        } else if same_text(name, SensorConstant::DS3231SN) {
            Some(SensorKind::Ds3231sn)
        } else if same_text(name, SensorConstant::LSM303DLHACCEL) {
            Some(SensorKind::Lsm303dlhAccel)
        } else if same_text(name, SensorConstant::LSM303DLHMAG) {
            Some(SensorKind::Lsm303dlhMag)
        } else if same_text(name, SensorConstant::VL5310X) {
            Some(SensorKind::Vl53l0x)
        } else {
            None
        }
    }

    /// The part that `name` selects, whatever the case of its letters.
    pub fn from_name(name: &str) -> (r: Option<SensorKind>)
        ensures
            r == SensorKind::lookup(name@),
    {
        let folded = to_lower(name);
        SensorKind::from_short_name(folded.as_str())
    }

    /// The keys of the parts, written out.
    pub proof fn lemma_key_text(self)
        ensures
            self.key() == (match self {
                SensorKind::Bh1750 => "BH1750"@,
                SensorKind::Bme280 => "BME280"@,
                SensorKind::Bme680 => "BME680"@,
                SensorKind::Ds3231sn => "DS3231SN"@,
                SensorKind::Lsm303dlhAccel => "LSM303DLHACCEL"@,
                SensorKind::Lsm303dlhMag => "LSM303DLHMAG"@,
                SensorKind::Vl53l0x => "VL53L0X"@,
            }),
    {
        match self {
            SensorKind::Bh1750 => {
                reveal_strlit("bh1750");
                reveal_strlit("BH1750");
                assert(upper("bh1750"@) =~= "BH1750"@);
            },
            SensorKind::Bme280 => {
                reveal_strlit("bme280");
                reveal_strlit("BME280");
                assert(upper("bme280"@) =~= "BME280"@);
            },
            SensorKind::Bme680 => {
                reveal_strlit("bme680");
                reveal_strlit("BME680");
                assert(upper("bme680"@) =~= "BME680"@);
            },
            SensorKind::Ds3231sn => {
                reveal_strlit("ds3231sn");
                reveal_strlit("DS3231SN");
                assert(upper("ds3231sn"@) =~= "DS3231SN"@);
            },
            SensorKind::Lsm303dlhAccel => {
                reveal_strlit("lsm303dlhaccel");
                reveal_strlit("LSM303DLHACCEL");
                assert(upper("lsm303dlhaccel"@) =~= "LSM303DLHACCEL"@);
            },
            SensorKind::Lsm303dlhMag => {
                reveal_strlit("lsm303dlhmag");
                reveal_strlit("LSM303DLHMAG");
                assert(upper("lsm303dlhmag"@) =~= "LSM303DLHMAG"@);
            },
            SensorKind::Vl53l0x => {
                reveal_strlit("vl53l0x");
                reveal_strlit("VL53L0X");
                assert(upper("vl53l0x"@) =~= "VL53L0X"@);
            },
        }
    }

    /// No two parts share a short name, and a part is selected by its short
    /// name and by its key alike.
    pub proof fn lemma_lookup_own_names(self)
        ensures
            SensorKind::named(self.short_name()) == Some(self),
            SensorKind::lookup(self.short_name()) == Some(self),
            SensorKind::lookup(self.key()) == Some(self),
    {
        reveal_strlit("bh1750");
        reveal_strlit("bme280");
        reveal_strlit("bme680");
        reveal_strlit("ds3231sn");
        reveal_strlit("lsm303dlhaccel");
        reveal_strlit("lsm303dlhmag");
        reveal_strlit("vl53l0x");
        assert("bh1750"@.len() == 6 && "bh1750"@[1] == 'h');
        assert("bme280"@.len() == 6 && "bme280"@[1] == 'm' && "bme280"@[3] == '2');
        assert("bme680"@.len() == 6 && "bme680"@[1] == 'm' && "bme680"@[3] == '6');
        assert("ds3231sn"@.len() == 8);
        assert("lsm303dlhaccel"@.len() == 14);
        assert("lsm303dlhmag"@.len() == 12);
        assert("vl53l0x"@.len() == 7);
        assert(lower(self.short_name()) =~= self.short_name());
        assert(lower(self.key()) =~= self.short_name());
    }

    /// A name that selects a part has the part's key as its upper-case form.
    pub proof fn lemma_lookup_key(name: Seq<char>)
        requires
            SensorKind::lookup(name) is Some,
        ensures
            upper(name) == SensorKind::lookup(name)->0.key(),
    {
        let kind = SensorKind::lookup(name)->0;
        assert(lower(name) == kind.short_name());
        assert(upper(name) =~= upper(lower(name)));
    }
}

} // verus!
