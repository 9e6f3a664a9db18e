//! The request the strategy engine sends to its language model when it asks for a
//! new strategy.

use vstd::prelude::*;
use crate::strategy::{horizon_category, LiquidityLevel, MarketConditions, MarketSentiment, TimeHorizon, TrendDirection, VolatilityLevel};
use crate::text::{join, join_seq, owned, push_str, strs_view};

verus! {

/// The largest magnitude of a decimal's mantissa: ninety-six bits.
pub const DECIMAL_MANTISSA_LIMIT: i128 = 0xFFFF_FFFF_FFFF_FFFF_FFFF_FFFF;

/// The largest number of fractional digits of a decimal.
pub const DECIMAL_SCALE_LIMIT: u32 = 28;

/// A decimal number: `mantissa` times ten to the power of minus `scale`.
#[derive(Debug, Clone, Copy, PartialEq, Eq, Structural)]
pub struct DecimalAmount {
    pub mantissa: i128,
    pub scale: u32,
}

/// Whether a decimal is within the range a decimal can hold.
pub open spec fn decimal_fits(d: DecimalAmount) -> bool {
    d.scale <= DECIMAL_SCALE_LIMIT && -DECIMAL_MANTISSA_LIMIT <= d.mantissa <= DECIMAL_MANTISSA_LIMIT
}

/// The text of the decimal `mantissa` times ten to the power of minus `scale`, as
/// the decimal library writes it.
pub uninterp spec fn decimal_display(mantissa: int, scale: int) -> Seq<char>;

/// `rust_decimal::Decimal::from_i128_with_scale` and the decimal's `Display` text.
/// The contract claims only that the text depends on the two numbers alone; the
/// bounds are those outside which the constructor panics.
#[verifier::external_body]
fn decimal_text(mantissa: i128, scale: u32) -> (r: String)
    requires
        scale <= DECIMAL_SCALE_LIMIT,
        -DECIMAL_MANTISSA_LIMIT <= mantissa <= DECIMAL_MANTISSA_LIMIT,
    ensures
        r@ == decimal_display(mantissa as int, scale as int),
{
    rust_decimal::Decimal::from_i128_with_scale(mantissa, scale).to_string()
}

/// How much risk a strategy may take; a custom tolerance is a coefficient.
#[derive(Debug, Clone, Copy, PartialEq, Eq, Structural)]
pub enum RiskTolerance {
    Conservative,
    Moderate,
    Aggressive,
    Custom(DecimalAmount),
}

/// The name of a risk tolerance in the request; a custom one shows its coefficient.
pub open spec fn risk_text(r: RiskTolerance) -> Seq<char> {
    match r {
        RiskTolerance::Conservative => "Conservative"@,
        RiskTolerance::Moderate => "Moderate"@,
        RiskTolerance::Aggressive => "Aggressive"@,
        RiskTolerance::Custom(d) => "Custom("@ + decimal_display(d.mantissa as int, d.scale as int) + ")"@,
    }
}

/// The name of a trading horizon.
pub open spec fn horizon_name(h: TimeHorizon) -> Seq<char> {
    match h {
        TimeHorizon::Scalping => "Scalping"@,
        TimeHorizon::DayTrading => "DayTrading"@,
        TimeHorizon::SwingTrading => "SwingTrading"@,
        TimeHorizon::PositionTrading => "PositionTrading"@,
        TimeHorizon::LongTerm => "LongTerm"@,
    }
}

/// The name of a trend direction.
pub open spec fn trend_name(t: TrendDirection) -> Seq<char> {
    match t {
        TrendDirection::Bullish => "Bullish"@,
        TrendDirection::Bearish => "Bearish"@,
        TrendDirection::Sideways => "Sideways"@,
        TrendDirection::Uncertain => "Uncertain"@,
    }
}

/// The name of a volatility level.
pub open spec fn volatility_name(v: VolatilityLevel) -> Seq<char> {
    match v {
        VolatilityLevel::Low => "Low"@,
        VolatilityLevel::Medium => "Medium"@,
        VolatilityLevel::High => "High"@,
        VolatilityLevel::Extreme => "Extreme"@,
    }
}

/// The name of a liquidity level.
pub open spec fn liquidity_name(l: LiquidityLevel) -> Seq<char> {
    match l {
        LiquidityLevel::Low => "Low"@,
        LiquidityLevel::Medium => "Medium"@,
        LiquidityLevel::High => "High"@,
    }
}

/// The name of a market sentiment.
pub open spec fn sentiment_name(s: MarketSentiment) -> Seq<char> {
    match s {
        MarketSentiment::Fearful => "Fearful"@,
        MarketSentiment::Cautious => "Cautious"@,
        MarketSentiment::Neutral => "Neutral"@,
        MarketSentiment::Optimistic => "Optimistic"@,
        MarketSentiment::Greedy => "Greedy"@,
    }
}

/// What a strategy is asked for.
pub struct StrategyPrompt {
    pub objective: String,
    pub risk_tolerance: RiskTolerance,
    pub time_horizon: TimeHorizon,
    pub market_conditions: MarketConditions,
    /// The instruments, by their text.
    pub symbols: Vec<String>,
    pub capital: DecimalAmount,
    pub constraints: Vec<String>,
    /// The preferences as key and value, in the order they are listed.
    pub preferences: Vec<(String, String)>,
}

/// Whether the decimals of a request are within range.
pub open spec fn prompt_fits(p: StrategyPrompt) -> bool {
    &&& decimal_fits(p.capital)
    &&& (p.risk_tolerance matches RiskTolerance::Custom(d) ==> decimal_fits(d))
}

/// Each preference as `key: value`.
pub open spec fn preference_lines(p: Seq<(String, String)>) -> Seq<Seq<char>> {
    Seq::new(p.len(), |i: int| p[i].0@ + ": "@ + p[i].1@)
}

/// The request text: the fixed instructions with the objective, the risk tolerance,
/// the horizon and the market conditions by name, the symbols, constraints and
/// preferences each joined with `, `, and the capital.
pub open spec fn strategy_prompt(p: StrategyPrompt) -> Seq<char> {
    "\n你是一个专业的量化交易策略专家。请根据以下要求生成一个详细的交易策略：\n\n## 交易目标\n"@ + p.objective@
        + "\n\n## 风险偏好\n"@ + risk_text(p.risk_tolerance)
        + "\n\n## 时间周期\n"@ + horizon_name(p.time_horizon)
        + "\n\n## 市场条件\n- 趋势方向: "@ + trend_name(p.market_conditions.trend)
        + "\n- 波动率水平: "@ + volatility_name(p.market_conditions.volatility)
        + "\n- 流动性水平: "@ + liquidity_name(p.market_conditions.liquidity)
        + "\n- 市场情绪: "@ + sentiment_name(p.market_conditions.sentiment)
        + "\n\n## 交易标的\n"@ + join_seq(strs_view(p.symbols@), ", "@)
        + "\n\n## 资金规模\n"@ + decimal_display(p.capital.mantissa as int, p.capital.scale as int)
        + "\n\n## 约束条件\n"@ + join_seq(strs_view(p.constraints@), ", "@)
        + "\n\n## 其他偏好\n"@ + join_seq(preference_lines(p.preferences@), ", "@)
        + "\n\n请生成一个包含以下内容的完整策略：\n\n1. **策略名称和描述**\n2. **入场条件** (具体的技术指标和阈值)\n3. **出场条件** (止盈、止损、时间出场)\n4. **风险管理** (仓位管理、最大回撤控制)\n5. **参数设置** (所有可调参数及其默认值)\n6. **预期表现** (年化收益率、夏普比率、最大回撤等)\n7. **策略代码** (Python或Rust实现)\n\n请以JSON格式返回，确保所有数值都是有效的数字格式。\n"@
}

fn horizon_label(h: TimeHorizon) -> (r: &'static str)
    ensures
        r@ == horizon_name(h),
{
    match h {
        TimeHorizon::Scalping => "Scalping",
        TimeHorizon::DayTrading => "DayTrading",
        TimeHorizon::SwingTrading => "SwingTrading",
        TimeHorizon::PositionTrading => "PositionTrading",
        TimeHorizon::LongTerm => "LongTerm",
    }
}

fn trend_label(t: TrendDirection) -> (r: &'static str)
    ensures
        r@ == trend_name(t),
{
    match t {
        TrendDirection::Bullish => "Bullish",
        TrendDirection::Bearish => "Bearish",
        TrendDirection::Sideways => "Sideways",
        TrendDirection::Uncertain => "Uncertain",
    }
}

fn volatility_label(v: VolatilityLevel) -> (r: &'static str)
    ensures
        r@ == volatility_name(v),
{
    match v {
        VolatilityLevel::Low => "Low",
        VolatilityLevel::Medium => "Medium",
        VolatilityLevel::High => "High",
        VolatilityLevel::Extreme => "Extreme",
    }
}

fn liquidity_label(l: LiquidityLevel) -> (r: &'static str)
    ensures
        r@ == liquidity_name(l),
{
    match l {
        LiquidityLevel::Low => "Low",
        LiquidityLevel::Medium => "Medium",
        LiquidityLevel::High => "High",
    }
}

fn sentiment_label(s: MarketSentiment) -> (r: &'static str)
    ensures
        r@ == sentiment_name(s),
{
    match s {
        MarketSentiment::Fearful => "Fearful",
        MarketSentiment::Cautious => "Cautious",
        MarketSentiment::Neutral => "Neutral",
        MarketSentiment::Optimistic => "Optimistic",
        MarketSentiment::Greedy => "Greedy",
    }
}

/// The text of a risk tolerance as the request shows it.
pub fn risk_tolerance_text(r: &RiskTolerance) -> (t: String)
    requires
        *r matches RiskTolerance::Custom(d) ==> decimal_fits(d),
    ensures
        t@ == risk_text(*r),
{
    match r {
        RiskTolerance::Conservative => owned("Conservative"),
        RiskTolerance::Moderate => owned("Moderate"),
        RiskTolerance::Aggressive => owned("Aggressive"),
        RiskTolerance::Custom(d) => {
            let mut t = owned("Custom(");
            let v = decimal_text(d.mantissa, d.scale);
            push_str(&mut t, v.as_str());
            push_str(&mut t, ")");
            t
        },
    }
}

fn preference_strings(p: &Vec<(String, String)>) -> (r: Vec<String>)
    ensures
        strs_view(r@) == preference_lines(p@),
{
    let mut r: Vec<String> = Vec::new();
    let mut i: usize = 0;
    while i < p.len()
        invariant
            i <= p@.len(),
            r@.len() == i,
            forall|j: int| 0 <= j < i ==> #[trigger] r@[j]@ == p@[j].0@ + ": "@ + p@[j].1@,
        decreases p@.len() - i,
    {
        let mut line = owned(p[i].0.as_str());
        push_str(&mut line, ": ");
        push_str(&mut line, p[i].1.as_str());
        r.push(line);
        i = i + 1;
    }
    assert(strs_view(r@) =~= preference_lines(p@));
    r
}

/// The request text for a strategy (see `strategy_prompt`).
pub fn build_strategy_prompt(prompt: &StrategyPrompt) -> (r: String)
    requires
        prompt_fits(*prompt),
    ensures
        r@ == strategy_prompt(*prompt),
{
    let risk = risk_tolerance_text(&prompt.risk_tolerance);
    let symbols = join(&prompt.symbols, ", ");
    let capital = decimal_text(prompt.capital.mantissa, prompt.capital.scale);
    let constraints = join(&prompt.constraints, ", ");
    let lines = preference_strings(&prompt.preferences);
    let preferences = join(&lines, ", ");
    let mut s = owned("\n你是一个专业的量化交易策略专家。请根据以下要求生成一个详细的交易策略：\n\n## 交易目标\n");
    push_str(&mut s, prompt.objective.as_str());
    push_str(&mut s, "\n\n## 风险偏好\n");
    push_str(&mut s, risk.as_str());
    push_str(&mut s, "\n\n## 时间周期\n");
    push_str(&mut s, horizon_label(prompt.time_horizon));
    push_str(&mut s, "\n\n## 市场条件\n- 趋势方向: ");
    push_str(&mut s, trend_label(prompt.market_conditions.trend));
    push_str(&mut s, "\n- 波动率水平: ");
    push_str(&mut s, volatility_label(prompt.market_conditions.volatility));
    push_str(&mut s, "\n- 流动性水平: ");
    push_str(&mut s, liquidity_label(prompt.market_conditions.liquidity));
    push_str(&mut s, "\n- 市场情绪: ");
    push_str(&mut s, sentiment_label(prompt.market_conditions.sentiment));
    push_str(&mut s, "\n\n## 交易标的\n");
    push_str(&mut s, symbols.as_str());
    push_str(&mut s, "\n\n## 资金规模\n");
    push_str(&mut s, capital.as_str());
    push_str(&mut s, "\n\n## 约束条件\n");
    push_str(&mut s, constraints.as_str());
    push_str(&mut s, "\n\n## 其他偏好\n");
    push_str(&mut s, preferences.as_str());
    push_str(&mut s, "\n\n请生成一个包含以下内容的完整策略：\n\n1. **策略名称和描述**\n2. **入场条件** (具体的技术指标和阈值)\n3. **出场条件** (止盈、止损、时间出场)\n4. **风险管理** (仓位管理、最大回撤控制)\n5. **参数设置** (所有可调参数及其默认值)\n6. **预期表现** (年化收益率、夏普比率、最大回撤等)\n7. **策略代码** (Python或Rust实现)\n\n请以JSON格式返回，确保所有数值都是有效的数字格式。\n");
    s
}

/// A name written in lower case with its words joined by `_`: each capital letter
/// after the first character starts a new word.
pub open spec fn snake_case(s: Seq<char>) -> Seq<char>
    decreases s.len(),
{
    if s.len() == 0 {
        Seq::empty()
    } else {
        let c = s.last();
        let head = snake_case(s.drop_last());
        if 'A' <= c && c <= 'Z' {
            let lower = ((c as int) + 32) as char;
            if s.len() == 1 {
                head.push(lower)
            } else {
                head.push('_').push(lower)
            }
        } else {
            head.push(c)
        }
    }
}

/// A short-term horizon (scalping, day trading or swing trading) selects the
/// templates whose category is the horizon's own name in snake case.
pub proof fn law_short_horizon_category_is_its_name(h: TimeHorizon)
    requires
        h == TimeHorizon::Scalping || h == TimeHorizon::DayTrading || h == TimeHorizon::SwingTrading,
    ensures
        horizon_category(h) == snake_case(horizon_name(h)),
{
    reveal_with_fuel(snake_case, 14);
    reveal_strlit("Scalping");
    reveal_strlit("DayTrading");
    reveal_strlit("SwingTrading");
    reveal_strlit("scalping");
    reveal_strlit("day_trading");
    reveal_strlit("swing_trading");
    match h {
        TimeHorizon::Scalping => {
            assert(snake_case("Scalping"@) =~= "scalping"@);
        },
        TimeHorizon::DayTrading => {
            assert(snake_case("DayTrading"@) =~= "day_trading"@);
        },
        _ => {
            assert(snake_case("SwingTrading"@) =~= "swing_trading"@);
        },
    }
}

} // verus!
