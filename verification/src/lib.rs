//! The verified core of a company list view: a selection-tracking list
//! delegate, the styling policy of its rows, and the periodic refresh that
//! keeps the quotes moving. Beside it stand the decisions behind the title
//! bar and the log of the input story.

pub mod binary64;
pub mod company;
pub mod delegate;
pub mod input_story;
pub mod list_item;
pub mod list_story;
pub mod title_bar;
