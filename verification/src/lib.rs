//! Core engine of a terminal dashboard for a remote, paginated log store:
//! the selection/cursor model shared by menu and table views, the
//! pagination merge that reconciles fetched pages against cached items,
//! the shared state store that background workers fill, the fetch command
//! protocol, and the search-mode state machine.
pub mod app;
pub mod globalstate;
pub mod instruction;
pub mod keyevent;
pub mod logevent_list;
pub mod loggroup_menulist;
pub mod logs;
pub mod logstab;
pub mod merge;
pub mod metricstab;
pub mod search;
pub mod selection;
pub mod spinner;
pub mod strutil;
pub mod textinput;
pub mod timefmt;
pub mod utils;

