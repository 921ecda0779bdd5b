/*!
A terminal pager core: a scrollable viewport over a block of text, a
first-match command registry driven by key presses and colon commands,
and a declarative status-bar layout engine.

The library itself never touches a terminal. It computes what should be
shown (plain strings) and which state change an input event causes; a
host wires those to a real screen and input stream.
*/

mod commands;
mod state;
mod status_bar;
mod text;

pub use commands::Action;
pub use commands::Command;
pub use commands::CommandList;
pub use commands::CommandType;
pub use commands::KeyCode;
pub use state::Event;
pub use state::EventResponse;
pub use state::OverlayFrame;
pub use state::State;
pub use status_bar::Attribute;
pub use status_bar::Color;
pub use status_bar::StatusBar;
pub use status_bar::StatusBarLayout;
pub use status_bar::StatusBarLayoutItem;
pub use status_bar::Theme;
pub use status_bar::justify;
pub use status_bar::percentage;
pub use text::line_indicator_format;
