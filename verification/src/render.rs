//! Text exposition of the registry.
//!
//! Each gauge is rendered as three newline-terminated lines — a HELP line,
//! a TYPE line and a value line — and the body is the fourteen blocks in
//! the measurement order.  `spec_render` is the exact text; `Registry::render`
//! produces it.

use crate::num::{lemma_nat_text_digits, spec_i64_text};
use crate::payload::{is_num_char, lemma_shape_chars, num_token_shape, AirModel};
use crate::registry::{gauges_of, gauges_wf, GaugeState, Registry};
use vstd::prelude::*;

verus! {

/// `# HELP <name> <help>\n`
pub open spec fn help_line(name: Seq<char>, help: Seq<char>) -> Seq<char> {
    "# HELP "@ + name + " "@ + help + "\n"@
}

/// `# TYPE <name> gauge\n`
pub open spec fn type_line(name: Seq<char>) -> Seq<char> {
    "# TYPE "@ + name + " gauge\n"@
}

/// `<name> <value>\n`
pub open spec fn value_line(name: Seq<char>, val: Seq<char>) -> Seq<char> {
    name + " "@ + val + "\n"@
}

/// One gauge's three lines.
pub open spec fn metric_block(name: Seq<char>, help: Seq<char>, val: Seq<char>) -> Seq<char> {
    help_line(name, help) + type_line(name) + value_line(name, val)
}

/// The whole body: one block per gauge, in the measurement order.  Integer
/// gauges are written without a decimal point; decimal gauges keep their
/// source text.
pub open spec fn spec_render(g: GaugeState) -> Seq<char> {
    metric_block("awair_score"@, "Air quality score"@, spec_i64_text(g.score as int)) + metric_block(
        "awair_dew_point"@,
        "Dew point"@,
        g.dew_point,
    ) + metric_block("awair_temp"@, "Temperature"@, g.temp) + metric_block(
        "awair_humid"@,
        "Humidity"@,
        g.humid,
    ) + metric_block("awair_abs_humid"@, "Absolute humidity"@, g.abs_humid) + metric_block(
        "awair_co2"@,
        "CO2"@,
        spec_i64_text(g.co2 as int),
    ) + metric_block("awair_co2_est"@, "Estimated CO2"@, spec_i64_text(g.co2_est as int))
        + metric_block(
        "awair_co2_est_baseline"@,
        "Estimated CO2 baseline"@,
        spec_i64_text(g.co2_est_baseline as int),
    ) + metric_block("awair_voc"@, "VOC"@, spec_i64_text(g.voc as int)) + metric_block(
        "awair_voc_baseline"@,
        "VOC baseline"@,
        spec_i64_text(g.voc_baseline as int),
    ) + metric_block("awair_voc_h2_raw"@, "VOC H2 raw"@, spec_i64_text(g.voc_h2_raw as int))
        + metric_block(
        "awair_voc_ethanol_raw"@,
        "VOC ethanol raw"@,
        spec_i64_text(g.voc_ethanol_raw as int),
    ) + metric_block("awair_pm25"@, "PM25"@, spec_i64_text(g.pm25 as int)) + metric_block(
        "awair_pm10_est"@,
        "Estimated PM10"@,
        spec_i64_text(g.pm10_est as int),
    )
}

/// Appends one gauge's block to the output.
fn append_block(out: &mut String, name: &str, help: &str, val: &str)
    ensures
        final(out)@ == old(out)@ + metric_block(name@, help@, val@),
{
    out.append("# HELP ");
    out.append(name);
    out.append(" ");
    out.append(help);
    out.append("\n");
    out.append("# TYPE ");
    out.append(name);
    out.append(" gauge\n");
    out.append(name);
    out.append(" ");
    out.append(val);
    out.append("\n");
    proof {
        assert(out@ =~= old(out)@ + metric_block(name@, help@, val@));
    }
}

impl Registry {
    /// Renders the registry's current state as the exposition text.
    pub fn render(&self) -> (r: String)
        ensures
            r@ == spec_render(self@),
    {
        let mut out = String::new();
        let score = crate::num::i64_text(self.score);
        append_block(&mut out, "awair_score", "Air quality score", score.as_str());
        append_block(&mut out, "awair_dew_point", "Dew point", self.dew_point.as_str());
        append_block(&mut out, "awair_temp", "Temperature", self.temp.as_str());
        append_block(&mut out, "awair_humid", "Humidity", self.humid.as_str());
        append_block(&mut out, "awair_abs_humid", "Absolute humidity", self.abs_humid.as_str());
        let co2 = crate::num::i64_text(self.co2);
        append_block(&mut out, "awair_co2", "CO2", co2.as_str());
        let co2_est = crate::num::i64_text(self.co2_est);
        append_block(&mut out, "awair_co2_est", "Estimated CO2", co2_est.as_str());
        let co2_est_baseline = crate::num::i64_text(self.co2_est_baseline);
        append_block(
            &mut out,
            "awair_co2_est_baseline",
            "Estimated CO2 baseline",
            co2_est_baseline.as_str(),
        );
        let voc = crate::num::i64_text(self.voc);
        append_block(&mut out, "awair_voc", "VOC", voc.as_str());
        let voc_baseline = crate::num::i64_text(self.voc_baseline);
        append_block(&mut out, "awair_voc_baseline", "VOC baseline", voc_baseline.as_str());
        let voc_h2_raw = crate::num::i64_text(self.voc_h2_raw);
        append_block(&mut out, "awair_voc_h2_raw", "VOC H2 raw", voc_h2_raw.as_str());
        let voc_ethanol_raw = crate::num::i64_text(self.voc_ethanol_raw);
        append_block(
            &mut out,
            "awair_voc_ethanol_raw",
            "VOC ethanol raw",
            voc_ethanol_raw.as_str(),
        );
        let pm25 = crate::num::i64_text(self.pm25);
        append_block(&mut out, "awair_pm25", "PM25", pm25.as_str());
        let pm10_est = crate::num::i64_text(self.pm10_est);
        append_block(&mut out, "awair_pm10_est", "Estimated PM10", pm10_est.as_str());
        proof {
            assert(out@ =~= spec_render(self@));
        }
        out
    }
}

/// After a successful poll the rendered text lists, in the measurement
/// order, each gauge under its namespaced name with exactly the payload's
/// value for it: integers as their plain base-ten text, decimals as their
/// source text.
pub proof fn lemma_render_reflects_payload(m: AirModel)
    ensures
        spec_render(gauges_of(m)) == metric_block(
            "awair_score"@,
            "Air quality score"@,
            spec_i64_text(m.score as int),
        ) + metric_block("awair_dew_point"@, "Dew point"@, m.dew_point) + metric_block(
            "awair_temp"@,
            "Temperature"@,
            m.temp,
        ) + metric_block("awair_humid"@, "Humidity"@, m.humid) + metric_block(
            "awair_abs_humid"@,
            "Absolute humidity"@,
            m.abs_humid,
        ) + metric_block("awair_co2"@, "CO2"@, spec_i64_text(m.co2 as int)) + metric_block(
            "awair_co2_est"@,
            "Estimated CO2"@,
            spec_i64_text(m.co2_est as int),
        ) + metric_block(
            "awair_co2_est_baseline"@,
            "Estimated CO2 baseline"@,
            spec_i64_text(m.co2_est_baseline as int),
        ) + metric_block("awair_voc"@, "VOC"@, spec_i64_text(m.voc as int)) + metric_block(
            "awair_voc_baseline"@,
            "VOC baseline"@,
            spec_i64_text(m.voc_baseline as int),
        ) + metric_block("awair_voc_h2_raw"@, "VOC H2 raw"@, spec_i64_text(m.voc_h2_raw as int))
            + metric_block(
            "awair_voc_ethanol_raw"@,
            "VOC ethanol raw"@,
            spec_i64_text(m.voc_ethanol_raw as int),
        ) + metric_block("awair_pm25"@, "PM25"@, spec_i64_text(m.pm25 as int)) + metric_block(
            "awair_pm10_est"@,
            "Estimated PM10"@,
            spec_i64_text(m.pm10_est as int),
        ),
{
}

/// Before any successful poll has occurred, the rendered text already
/// exposes all fourteen gauge names, each with the value zero.
pub proof fn lemma_initial_exposes_zeros()
    ensures
        spec_render(crate::registry::initial_gauges()) == metric_block(
            "awair_score"@,
            "Air quality score"@,
            "0"@,
        ) + metric_block("awair_dew_point"@, "Dew point"@, "0"@) + metric_block(
            "awair_temp"@,
            "Temperature"@,
            "0"@,
        ) + metric_block("awair_humid"@, "Humidity"@, "0"@) + metric_block(
            "awair_abs_humid"@,
            "Absolute humidity"@,
            "0"@,
        ) + metric_block("awair_co2"@, "CO2"@, "0"@) + metric_block(
            "awair_co2_est"@,
            "Estimated CO2"@,
            "0"@,
        ) + metric_block("awair_co2_est_baseline"@, "Estimated CO2 baseline"@, "0"@)
            + metric_block("awair_voc"@, "VOC"@, "0"@) + metric_block(
            "awair_voc_baseline"@,
            "VOC baseline"@,
            "0"@,
        ) + metric_block("awair_voc_h2_raw"@, "VOC H2 raw"@, "0"@) + metric_block(
            "awair_voc_ethanol_raw"@,
            "VOC ethanol raw"@,
            "0"@,
        ) + metric_block("awair_pm25"@, "PM25"@, "0"@) + metric_block(
            "awair_pm10_est"@,
            "Estimated PM10"@,
            "0"@,
        ),
{
    reveal_strlit("0");
    assert(spec_i64_text(0) =~= "0"@);
}

/// No newline occurs in the text.
pub open spec fn no_newline(t: Seq<char>) -> bool {
    forall|i: int| 0 <= i < t.len() ==> #[trigger] t[i] != '\n'
}

/// A block whose name, help and value are newline-free and whose name and
/// value are non-empty renders as exactly three newline-terminated lines:
/// HELP, then TYPE, then the value line.
pub open spec fn wf_block(name: Seq<char>, help: Seq<char>, val: Seq<char>) -> bool {
    name.len() > 0 && val.len() > 0 && no_newline(name) && no_newline(help) && no_newline(val)
}

/// An integer's text is newline-free and non-empty.
proof fn lemma_int_text_clean(n: int)
    ensures
        spec_i64_text(n).len() > 0,
        no_newline(spec_i64_text(n)),
{
    let t = spec_i64_text(n);
    if n < 0 {
        lemma_nat_text_digits(-n);
        assert forall|i: int| 0 <= i < t.len() implies #[trigger] t[i] != '\n' by {
            if i > 0 {
                assert(t[i] == crate::num::spec_nat_text(-n)[i - 1]);
                assert(crate::is_digit(t[i]));
            }
        }
    } else {
        lemma_nat_text_digits(n);
        assert forall|i: int| 0 <= i < t.len() implies #[trigger] t[i] != '\n' by {
            assert(crate::is_digit(t[i]));
        }
    }
}

/// Number-shaped text is newline-free and non-empty.
proof fn lemma_num_text_clean(t: Seq<char>)
    requires
        num_token_shape(t),
    ensures
        t.len() > 0,
        no_newline(t),
{
    lemma_shape_chars(t);
    assert forall|i: int| 0 <= i < t.len() implies #[trigger] t[i] != '\n' by {
        assert(is_num_char(t[i]));
    }
}

/// The exposition shape of the whole body: for every gauge, one HELP line
/// and one TYPE line precede its value line, each block being three
/// newline-terminated lines with nothing else in them.
pub proof fn lemma_exposition_format(g: GaugeState)
    requires
        gauges_wf(g),
    ensures
        wf_block("awair_score"@, "Air quality score"@, spec_i64_text(g.score as int)),
        wf_block("awair_dew_point"@, "Dew point"@, g.dew_point),
        wf_block("awair_temp"@, "Temperature"@, g.temp),
        wf_block("awair_humid"@, "Humidity"@, g.humid),
        wf_block("awair_abs_humid"@, "Absolute humidity"@, g.abs_humid),
        wf_block("awair_co2"@, "CO2"@, spec_i64_text(g.co2 as int)),
        wf_block("awair_co2_est"@, "Estimated CO2"@, spec_i64_text(g.co2_est as int)),
        wf_block(
            "awair_co2_est_baseline"@,
            "Estimated CO2 baseline"@,
            spec_i64_text(g.co2_est_baseline as int),
        ),
        wf_block("awair_voc"@, "VOC"@, spec_i64_text(g.voc as int)),
        wf_block("awair_voc_baseline"@, "VOC baseline"@, spec_i64_text(g.voc_baseline as int)),
        wf_block("awair_voc_h2_raw"@, "VOC H2 raw"@, spec_i64_text(g.voc_h2_raw as int)),
        wf_block(
            "awair_voc_ethanol_raw"@,
            "VOC ethanol raw"@,
            spec_i64_text(g.voc_ethanol_raw as int),
        ),
        wf_block("awair_pm25"@, "PM25"@, spec_i64_text(g.pm25 as int)),
        wf_block("awair_pm10_est"@, "Estimated PM10"@, spec_i64_text(g.pm10_est as int)),
{
    reveal_strlit("awair_score");
    reveal_strlit("Air quality score");
    reveal_strlit("awair_dew_point");
    reveal_strlit("Dew point");
    reveal_strlit("awair_temp");
    reveal_strlit("Temperature");
    reveal_strlit("awair_humid");
    reveal_strlit("Humidity");
    reveal_strlit("awair_abs_humid");
    reveal_strlit("Absolute humidity");
    reveal_strlit("awair_co2");
    reveal_strlit("CO2");
    reveal_strlit("awair_co2_est");
    reveal_strlit("Estimated CO2");
    reveal_strlit("awair_co2_est_baseline");
    reveal_strlit("Estimated CO2 baseline");
    reveal_strlit("awair_voc");
    reveal_strlit("VOC");
    reveal_strlit("awair_voc_baseline");
    reveal_strlit("VOC baseline");
    reveal_strlit("awair_voc_h2_raw");
    reveal_strlit("VOC H2 raw");
    reveal_strlit("awair_voc_ethanol_raw");
    reveal_strlit("VOC ethanol raw");
    reveal_strlit("awair_pm25");
    reveal_strlit("PM25");
    reveal_strlit("awair_pm10_est");
    reveal_strlit("Estimated PM10");
    lemma_int_text_clean(g.score as int);
    lemma_int_text_clean(g.co2 as int);
    lemma_int_text_clean(g.co2_est as int);
    lemma_int_text_clean(g.co2_est_baseline as int);
    lemma_int_text_clean(g.voc as int);
    lemma_int_text_clean(g.voc_baseline as int);
    lemma_int_text_clean(g.voc_h2_raw as int);
    lemma_int_text_clean(g.voc_ethanol_raw as int);
    lemma_int_text_clean(g.pm25 as int);
    lemma_int_text_clean(g.pm10_est as int);
    lemma_num_text_clean(g.dew_point);
    lemma_num_text_clean(g.temp);
    lemma_num_text_clean(g.humid);
    lemma_num_text_clean(g.abs_humid);
}

} // verus!
