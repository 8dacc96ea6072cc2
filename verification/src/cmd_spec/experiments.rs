pub mod fluent_plus_mutator_style;
