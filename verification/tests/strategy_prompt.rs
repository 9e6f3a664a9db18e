use trading_services::prompt::{build_strategy_prompt, risk_tolerance_text, DecimalAmount, RiskTolerance, StrategyPrompt};
use trading_services::strategy::{
    CorrelationLevel, LiquidityLevel, MarketConditions, MarketSentiment, TimeHorizon, TrendDirection, VolatilityLevel,
};

fn expected(
    objective: &str,
    risk: &str,
    horizon: &str,
    trend: &str,
    volatility: &str,
    liquidity: &str,
    sentiment: &str,
    symbols: &str,
    capital: &str,
    constraints: &str,
    preferences: &str,
) -> String {
    format!(
        r#"
你是一个专业的量化交易策略专家。请根据以下要求生成一个详细的交易策略：

## 交易目标
{}

## 风险偏好
{}

## 时间周期
{}

## 市场条件
- 趋势方向: {}
- 波动率水平: {}
- 流动性水平: {}
- 市场情绪: {}

## 交易标的
{}

## 资金规模
{}

## 约束条件
{}

## 其他偏好
{}

请生成一个包含以下内容的完整策略：

1. **策略名称和描述**
2. **入场条件** (具体的技术指标和阈值)
3. **出场条件** (止盈、止损、时间出场)
4. **风险管理** (仓位管理、最大回撤控制)
5. **参数设置** (所有可调参数及其默认值)
6. **预期表现** (年化收益率、夏普比率、最大回撤等)
7. **策略代码** (Python或Rust实现)

请以JSON格式返回，确保所有数值都是有效的数字格式。
"#,
        objective, risk, horizon, trend, volatility, liquidity, sentiment, symbols, capital, constraints, preferences
    )
}

fn conditions() -> MarketConditions {
    MarketConditions {
        trend: TrendDirection::Bullish,
        volatility: VolatilityLevel::High,
        liquidity: LiquidityLevel::Medium,
        correlation: CorrelationLevel::Low,
        sentiment: MarketSentiment::Greedy,
    }
}

#[test]
fn strategy_prompt_fills_the_template() {
    let prompt = StrategyPrompt {
        objective: "steady growth".to_string(),
        risk_tolerance: RiskTolerance::Moderate,
        time_horizon: TimeHorizon::SwingTrading,
        market_conditions: conditions(),
        symbols: vec!["BTCUSDT".to_string(), "ETHUSDT".to_string()],
        capital: DecimalAmount { mantissa: 1_000_000, scale: 2 },
        constraints: vec!["no leverage".to_string(), "max 5 positions".to_string()],
        preferences: vec![("style".to_string(), "trend".to_string()), ("exit".to_string(), "trailing".to_string())],
    };
    let text = build_strategy_prompt(&prompt);
    assert_eq!(
        text,
        expected(
            "steady growth",
            "Moderate",
            "SwingTrading",
            "Bullish",
            "High",
            "Medium",
            "Greedy",
            "BTCUSDT, ETHUSDT",
            "10000.00",
            "no leverage, max 5 positions",
            "style: trend, exit: trailing",
        )
    );
}

#[test]
fn strategy_prompt_with_custom_risk_and_empty_lists() {
    let prompt = StrategyPrompt {
        objective: String::new(),
        risk_tolerance: RiskTolerance::Custom(DecimalAmount { mantissa: -25, scale: 3 }),
        time_horizon: TimeHorizon::Scalping,
        market_conditions: conditions(),
        symbols: vec![],
        capital: DecimalAmount { mantissa: 5, scale: 0 },
        constraints: vec![],
        preferences: vec![],
    };
    assert_eq!(risk_tolerance_text(&prompt.risk_tolerance), "Custom(-0.025)");
    let text = build_strategy_prompt(&prompt);
    assert_eq!(
        text,
        expected("", "Custom(-0.025)", "Scalping", "Bullish", "High", "Medium", "Greedy", "", "5", "", "")
    );
}

#[test]
fn trim_drops_unicode_white_space_at_both_ends() {
    assert_eq!(trading_services::text::trim("\u{3000}\t a b \n\u{2028}"), "a b");
    assert_eq!(trading_services::text::trim(" \u{85} "), "");
    assert_eq!(trading_services::text::trim("x"), "x");
}
