//! The weather record: the immutable input of a render, and the verified
//! assembly of the display strings built from its fields.

use vstd::prelude::*;
use vstd::string::StringExecFns;
use crate::fit::Fixed;
use crate::textfmt::{fixed_string, spec_fixed_dec};

verus! {

/// One weather report. The numeric fields are decimal values in tenths
/// (`Fixed`); everything else is caller-supplied text. A render only reads
/// the record.
#[derive(Clone, Debug)]
pub struct WeatherInfo {
    pub title: String,
    pub location: String,
    pub time: String,
    pub temp: Fixed,
    pub humd: Fixed,
    pub overview: String,
    pub overview2: String,
}

/// The temperature display string: the value followed by the Celsius sign,
/// as in "25℃".
pub open spec fn spec_temp_text(temp: Fixed) -> Seq<char> {
    spec_fixed_dec(temp.tenths as int) + "℃"@
}

/// The humidity display string: the value followed by a percent sign, as
/// in "87%".
pub open spec fn spec_humd_text(humd: Fixed) -> Seq<char> {
    spec_fixed_dec(humd.tenths as int) + "%"@
}

/// The combined overview line of the light template: both overview
/// strings, the temperature and the humidity, joined with fullwidth bars,
/// as in "Rainy｜Hot｜25℃｜湿60%".
pub open spec fn spec_combined_line(info: WeatherInfo) -> Seq<char> {
    info.overview@ + "｜"@ + info.overview2@ + "｜"@ + spec_fixed_dec(info.temp.tenths as int)
        + "℃｜湿"@ + spec_fixed_dec(info.humd.tenths as int) + "%"@
}

/// Render the temperature display string.
pub fn temp_text(temp: &Fixed) -> (r: String)
    ensures
        r@ == spec_temp_text(*temp),
{
    let mut s = fixed_string(temp);
    s.append("℃");
    s
}

/// Render the humidity display string.
pub fn humd_text(humd: &Fixed) -> (r: String)
    ensures
        r@ == spec_humd_text(*humd),
{
    let mut s = fixed_string(humd);
    s.append("%");
    s
}

/// Render the combined overview line of the light template.
pub fn combined_line(info: &WeatherInfo) -> (r: String)
    ensures
        r@ == spec_combined_line(*info),
{
    let mut s = info.overview.clone();
    s.append("｜");
    s.append(info.overview2.as_str());
    s.append("｜");
    s.append(fixed_string(&info.temp).as_str());
    s.append("℃｜湿");
    s.append(fixed_string(&info.humd).as_str());
    s.append("%");
    proof {
        assert(s@ =~= spec_combined_line(*info));
    }
    s
}

} // verus!
