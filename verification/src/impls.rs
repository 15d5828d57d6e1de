pub mod strategy_pattern_fn;
pub mod strategy_pattern_type;
