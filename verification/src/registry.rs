//! The gauge registry.
//!
//! Fourteen named gauges, one per measurement, pre-registered at
//! construction with zero values.  A successful poll overwrites all
//! fourteen at once; nothing else ever changes them, so each gauge always
//! shows the most recent successfully polled value.

use crate::payload::{num_token_shape, AirData, AirModel};
use vstd::prelude::*;

verus! {

/// The registry's state: the current value of every gauge.  Integer gauges
/// hold their value; decimal gauges hold the value's text.
#[verifier::ext_equal]
pub struct GaugeState {
    pub score: i64,
    pub dew_point: Seq<char>,
    pub temp: Seq<char>,
    pub humid: Seq<char>,
    pub abs_humid: Seq<char>,
    pub co2: i64,
    pub co2_est: i64,
    pub co2_est_baseline: i64,
    pub voc: i64,
    pub voc_baseline: i64,
    pub voc_h2_raw: i64,
    pub voc_ethanol_raw: i64,
    pub pm25: i64,
    pub pm10_est: i64,
}

/// Decimal gauges always hold number-shaped text.
pub open spec fn gauges_wf(g: GaugeState) -> bool {
    num_token_shape(g.dew_point) && num_token_shape(g.temp) && num_token_shape(g.humid)
        && num_token_shape(g.abs_humid)
}

/// The gauge values a payload sets: every gauge gets the payload's value
/// for its measurement, whatever the gauges held before.
pub open spec fn gauges_of(m: AirModel) -> GaugeState {
    GaugeState {
        score: m.score,
        dew_point: m.dew_point,
        temp: m.temp,
        humid: m.humid,
        abs_humid: m.abs_humid,
        co2: m.co2,
        co2_est: m.co2_est,
        co2_est_baseline: m.co2_est_baseline,
        voc: m.voc,
        voc_baseline: m.voc_baseline,
        voc_h2_raw: m.voc_h2_raw,
        voc_ethanol_raw: m.voc_ethanol_raw,
        pm25: m.pm25,
        pm10_est: m.pm10_est,
    }
}

/// The state of a fresh registry: every gauge at zero.
pub open spec fn initial_gauges() -> GaugeState {
    GaugeState {
        score: 0,
        dew_point: "0"@,
        temp: "0"@,
        humid: "0"@,
        abs_humid: "0"@,
        co2: 0,
        co2_est: 0,
        co2_est_baseline: 0,
        voc: 0,
        voc_baseline: 0,
        voc_h2_raw: 0,
        voc_ethanol_raw: 0,
        pm25: 0,
        pm10_est: 0,
    }
}

/// The gauge registry itself.
pub struct Registry {
    pub score: i64,
    pub dew_point: String,
    pub temp: String,
    pub humid: String,
    pub abs_humid: String,
    pub co2: i64,
    pub co2_est: i64,
    pub co2_est_baseline: i64,
    pub voc: i64,
    pub voc_baseline: i64,
    pub voc_h2_raw: i64,
    pub voc_ethanol_raw: i64,
    pub pm25: i64,
    pub pm10_est: i64,
}

impl View for Registry {
    type V = GaugeState;

    open spec fn view(&self) -> GaugeState {
        GaugeState {
            score: self.score,
            dew_point: self.dew_point@,
            temp: self.temp@,
            humid: self.humid@,
            abs_humid: self.abs_humid@,
            co2: self.co2,
            co2_est: self.co2_est,
            co2_est_baseline: self.co2_est_baseline,
            voc: self.voc,
            voc_baseline: self.voc_baseline,
            voc_h2_raw: self.voc_h2_raw,
            voc_ethanol_raw: self.voc_ethanol_raw,
            pm25: self.pm25,
            pm10_est: self.pm10_est,
        }
    }
}

/// The text "0" is number-shaped.
pub proof fn lemma_zero_shape()
    ensures
        num_token_shape("0"@),
{
    reveal_strlit("0");
    let t = "0"@;
    assert(t =~= seq!['0']);
    assert(crate::payload::int_part_shape(t.subrange(0, 1))) by {
        assert(t.subrange(0, 1) =~= t);
        assert(crate::is_digit('0'));
        assert(crate::payload::digits_only(t));
    }
    assert(t.subrange(1, 1).len() == 0);
    assert(crate::payload::frac_part_shape(t.subrange(1, 1)));
    assert(crate::payload::exp_part_shape(t.subrange(1, t.len() as int)));
    assert(num_token_shape(t));
}

impl Registry {
    pub open spec fn wf(&self) -> bool {
        gauges_wf(self@)
    }

    /// A fresh registry: all fourteen gauges present, all at zero.
    pub fn new() -> (r: Registry)
        ensures
            r@ == initial_gauges(),
            r.wf(),
    {
        let r = Registry {
            score: 0,
            dew_point: "0".to_owned(),
            temp: "0".to_owned(),
            humid: "0".to_owned(),
            abs_humid: "0".to_owned(),
            co2: 0,
            co2_est: 0,
            co2_est_baseline: 0,
            voc: 0,
            voc_baseline: 0,
            voc_h2_raw: 0,
            voc_ethanol_raw: 0,
            pm25: 0,
            pm10_est: 0,
        };
        proof {
            assert(r@ =~= initial_gauges());
            lemma_zero_shape();
        }
        r
    }

    /// Overwrites every gauge with the payload's value for it, all at once.
    pub fn update(&mut self, d: AirData)
        requires
            d.wf(),
        ensures
            final(self)@ == gauges_of(d@),
            final(self).wf(),
    {
        self.score = d.score;
        self.dew_point = d.dew_point;
        self.temp = d.temp;
        self.humid = d.humid;
        self.abs_humid = d.abs_humid;
        self.co2 = d.co2;
        self.co2_est = d.co2_est;
        self.co2_est_baseline = d.co2_est_baseline;
        self.voc = d.voc;
        self.voc_baseline = d.voc_baseline;
        self.voc_h2_raw = d.voc_h2_raw;
        self.voc_ethanol_raw = d.voc_ethanol_raw;
        self.pm25 = d.pm25;
        self.pm10_est = d.pm10_est;
        proof {
            assert(self@ =~= gauges_of(d@));
        }
    }
}

} // verus!
