//! The vocabulary the strategy engine describes markets with, and the choice of a
//! strategy template for a trading horizon.

use vstd::prelude::*;
use crate::text::{owned, str_eq};

verus! {

/// How long positions are held.
#[derive(Debug, Clone, Copy, PartialEq, Eq, Structural)]
pub enum TimeHorizon {
    Scalping,
    DayTrading,
    SwingTrading,
    PositionTrading,
    LongTerm,
}

/// Where prices are heading.
#[derive(Debug, Clone, Copy, PartialEq, Eq, Structural)]
pub enum TrendDirection {
    Bullish,
    Bearish,
    Sideways,
    Uncertain,
}

/// How much prices move.
#[derive(Debug, Clone, Copy, PartialEq, Eq, Structural)]
pub enum VolatilityLevel {
    Low,
    Medium,
    High,
    Extreme,
}

/// How easily positions can be traded.
#[derive(Debug, Clone, Copy, PartialEq, Eq, Structural)]
pub enum LiquidityLevel {
    Low,
    Medium,
    High,
}

/// How closely instruments move together.
#[derive(Debug, Clone, Copy, PartialEq, Eq, Structural)]
pub enum CorrelationLevel {
    Low,
    Medium,
    High,
}

/// The mood of the market.
#[derive(Debug, Clone, Copy, PartialEq, Eq, Structural)]
pub enum MarketSentiment {
    Fearful,
    Cautious,
    Neutral,
    Optimistic,
    Greedy,
}

/// The state of the market a strategy is asked for.
#[derive(Debug, Clone, Copy, PartialEq, Eq, Structural)]
pub struct MarketConditions {
    pub trend: TrendDirection,
    pub volatility: VolatilityLevel,
    pub liquidity: LiquidityLevel,
    pub correlation: CorrelationLevel,
    pub sentiment: MarketSentiment,
}

/// The volatility regime found by an analysis.
#[derive(Debug, Clone, Copy, PartialEq, Eq, Structural)]
pub enum VolatilityRegime {
    Low,
    Normal,
    High,
    Extreme,
}

/// The kind of market found by an analysis.
#[derive(Debug, Clone, Copy, PartialEq, Eq, Structural)]
pub enum MarketRegime {
    Bull,
    Bear,
    Sideways,
    Volatile,
    Calm,
}

/// The value of a strategy parameter. Floating-point values and lists of values are
/// not held by the library.
#[derive(Debug, Clone, PartialEq, Eq)]
pub enum ParameterValue {
    Integer(i64),
    /// The decimal number `mantissa` times ten to the power of minus `scale`.
    Decimal { mantissa: i64, scale: u32 },
    String(String),
    Boolean(bool),
}

/// A tunable parameter of a template: its name and type, its default value and the
/// bounds it may take.
#[derive(Debug, Clone, PartialEq, Eq)]
pub struct ParameterDefinition {
    pub name: String,
    pub parameter_type: String,
    pub default_value: ParameterValue,
    pub min_value: Option<ParameterValue>,
    pub max_value: Option<ParameterValue>,
    pub description: String,
}

/// A strategy template.
pub struct StrategyTemplate {
    pub name: String,
    pub category: String,
    pub description: String,
    pub parameters: Vec<ParameterDefinition>,
    pub code_template: String,
}

/// Whether a parameter definition is the given one.
pub open spec fn parameter_is(
    p: ParameterDefinition,
    name: Seq<char>,
    parameter_type: Seq<char>,
    default_value: ParameterValue,
    min_value: ParameterValue,
    max_value: ParameterValue,
    description: Seq<char>,
) -> bool {
    &&& p.name@ == name
    &&& p.parameter_type@ == parameter_type
    &&& p.default_value == default_value
    &&& p.min_value == Some(min_value)
    &&& p.max_value == Some(max_value)
    &&& p.description@ == description
}

fn integer_parameter(name: &str, default: i64, min: i64, max: i64, description: &str) -> (p: ParameterDefinition)
    ensures
        parameter_is(
            p,
            name@,
            "integer"@,
            ParameterValue::Integer(default),
            ParameterValue::Integer(min),
            ParameterValue::Integer(max),
            description@,
        ),
{
    ParameterDefinition {
        name: owned(name),
        parameter_type: owned("integer"),
        default_value: ParameterValue::Integer(default),
        min_value: Some(ParameterValue::Integer(min)),
        max_value: Some(ParameterValue::Integer(max)),
        description: owned(description),
    }
}

fn whole_decimal(v: i64) -> (d: ParameterValue)
    ensures
        d == (ParameterValue::Decimal { mantissa: v, scale: 0 }),
{
    ParameterValue::Decimal { mantissa: v, scale: 0 }
}

/// The template category that suits a horizon: scalping, day trading and swing
/// trading have their own, every other horizon takes `general`.
pub open spec fn horizon_category(h: TimeHorizon) -> Seq<char> {
    match h {
        TimeHorizon::Scalping => "scalping"@,
        TimeHorizon::DayTrading => "day_trading"@,
        TimeHorizon::SwingTrading => "swing_trading"@,
        _ => "general"@,
    }
}

/// Whether a template suits a horizon.
pub fn template_matches(template: &StrategyTemplate, horizon: TimeHorizon) -> (b: bool)
    ensures
        b == (template.category@ == horizon_category(horizon)),
{
    match horizon {
        TimeHorizon::Scalping => str_eq(template.category.as_str(), "scalping"),
        TimeHorizon::DayTrading => str_eq(template.category.as_str(), "day_trading"),
        TimeHorizon::SwingTrading => str_eq(template.category.as_str(), "swing_trading"),
        _ => str_eq(template.category.as_str(), "general"),
    }
}

/// The first template that suits the horizon, or the message that none does.
pub fn select_strategy_template(templates: &Vec<StrategyTemplate>, horizon: TimeHorizon) -> (r: Result<
    usize,
    &'static str,
>)
    ensures
        match r {
            Ok(i) => i < templates@.len() && templates@[i as int].category@ == horizon_category(horizon)
                && forall|j: int| 0 <= j < i ==> templates@[j].category@ != horizon_category(horizon),
            Err(m) => m@ == "No suitable template found"@ && forall|j: int|
                0 <= j < templates@.len() ==> templates@[j].category@ != horizon_category(horizon),
        },
{
    let mut i: usize = 0;
    while i < templates.len()
        invariant
            i <= templates.len(),
            forall|j: int| 0 <= j < i ==> templates@[j].category@ != horizon_category(horizon),
        decreases templates.len() - i,
    {
        if template_matches(&templates[i], horizon) {
            return Ok(i);
        }
        i = i + 1;
    }
    Err("No suitable template found")
}

/// The shipped templates: mean reversion (a lookback period and a deviation
/// threshold) and momentum (a fast and a slow period).
pub fn load_strategy_templates() -> (r: Vec<StrategyTemplate>)
    ensures
        r@.len() == 2,
        r@[0].name@ == "Mean Reversion"@,
        r@[0].category@ == "mean_reversion"@,
        r@[0].description@ == "Buy low, sell high based on statistical mean reversion"@,
        r@[0].code_template@ == "// Mean reversion strategy template"@,
        r@[0].parameters@.len() == 2,
        parameter_is(
            r@[0].parameters@[0],
            "lookback_period"@,
            "integer"@,
            ParameterValue::Integer(20),
            ParameterValue::Integer(5),
            ParameterValue::Integer(100),
            "Lookback period for mean calculation"@,
        ),
        parameter_is(
            r@[0].parameters@[1],
            "threshold"@,
            "decimal"@,
            ParameterValue::Decimal { mantissa: 2, scale: 0 },
            ParameterValue::Decimal { mantissa: 1, scale: 0 },
            ParameterValue::Decimal { mantissa: 5, scale: 0 },
            "Standard deviation threshold for entry"@,
        ),
        r@[1].name@ == "Momentum"@,
        r@[1].category@ == "momentum"@,
        r@[1].description@ == "Follow the trend with momentum indicators"@,
        r@[1].code_template@ == "// Momentum strategy template"@,
        r@[1].parameters@.len() == 2,
        parameter_is(
            r@[1].parameters@[0],
            "fast_period"@,
            "integer"@,
            ParameterValue::Integer(12),
            ParameterValue::Integer(5),
            ParameterValue::Integer(50),
            "Fast EMA period"@,
        ),
        parameter_is(
            r@[1].parameters@[1],
            "slow_period"@,
            "integer"@,
            ParameterValue::Integer(26),
            ParameterValue::Integer(10),
            ParameterValue::Integer(100),
            "Slow EMA period"@,
        ),
{
    let threshold = ParameterDefinition {
        name: owned("threshold"),
        parameter_type: owned("decimal"),
        default_value: whole_decimal(2),
        min_value: Some(whole_decimal(1)),
        max_value: Some(whole_decimal(5)),
        description: owned("Standard deviation threshold for entry"),
    };
    vec![
        StrategyTemplate {
            name: owned("Mean Reversion"),
            category: owned("mean_reversion"),
            description: owned("Buy low, sell high based on statistical mean reversion"),
            parameters: vec![
                integer_parameter("lookback_period", 20, 5, 100, "Lookback period for mean calculation"),
                threshold,
            ],
            code_template: owned("// Mean reversion strategy template"),
        },
        StrategyTemplate {
            name: owned("Momentum"),
            category: owned("momentum"),
            description: owned("Follow the trend with momentum indicators"),
            parameters: vec![
                integer_parameter("fast_period", 12, 5, 50, "Fast EMA period"),
                integer_parameter("slow_period", 26, 10, 100, "Slow EMA period"),
            ],
            code_template: owned("// Momentum strategy template"),
        },
    ]
}

/// No horizon selects a shipped template: their categories are none of those the
/// horizons ask for.
pub proof fn law_shipped_templates_suit_no_horizon(h: TimeHorizon)
    ensures
        horizon_category(h) != "mean_reversion"@,
        horizon_category(h) != "momentum"@,
{
    reveal_strlit("scalping");
    reveal_strlit("day_trading");
    reveal_strlit("swing_trading");
    reveal_strlit("general");
    reveal_strlit("mean_reversion");
    reveal_strlit("momentum");
    assert("scalping"@.len() == 8 && "day_trading"@.len() == 11 && "swing_trading"@.len() == 13
        && "general"@.len() == 7 && "mean_reversion"@.len() == 14 && "momentum"@.len() == 8);
    assert("scalping"@[0] != "momentum"@[0]);
}

/// Scalping, day trading and swing trading each select templates of a category of
/// their own: two different horizons share a category only when neither is one of
/// these three (both then take the general templates).
pub proof fn law_horizons_select_their_own_category(h1: TimeHorizon, h2: TimeHorizon)
    requires
        h1 != h2,
        horizon_category(h1) == horizon_category(h2),
    ensures
        h1 == TimeHorizon::PositionTrading || h1 == TimeHorizon::LongTerm,
        h2 == TimeHorizon::PositionTrading || h2 == TimeHorizon::LongTerm,
{
    reveal_strlit("scalping");
    reveal_strlit("day_trading");
    reveal_strlit("swing_trading");
    reveal_strlit("general");
    assert("scalping"@.len() == 8 && "day_trading"@.len() == 11 && "swing_trading"@.len() == 13
        && "general"@.len() == 7);
}

} // verus!
