//! The L-system: rules, rule sets, the rewriter, the system itself, and the
//! musical interpretation of its words.

pub mod control_panel;
pub mod interpret;
pub mod l_rewriter;
pub mod l_rule;
pub mod l_rule_set;
pub mod l_system;
pub mod rule_edit;

pub use control_panel::ControlPanel;
pub use l_rewriter::CSSLRewriter;
pub use l_rewriter::LRewriter;
pub use l_rule::CSSLRule;
pub use l_rule::LRule;
pub use l_rule::Probability;
pub use l_rule::ToCSSLRule;
pub use l_rule_set::CSSLRuleSet;
pub use l_rule_set::LRuleSet;
pub use l_system::CSSLSystem;
pub use l_system::LSystem;
pub use l_system::LSystemState;
pub use rule_edit::RuleEditState;
