//! The CalDAV side: request building, response model and the state
//! machines that drive one workflow each over an HTTP/1.1 stream.
pub mod calendar_home_set;
pub mod config;
pub mod create_calendar;
pub mod create_item;
pub mod current_user_principal;
pub mod delete_calendar;
pub mod delete_item;
pub mod follow_redirects;
pub mod ids;
pub mod list_calendars;
pub mod list_items;
pub mod read_item;
pub mod request;
pub mod response;
pub mod send;
pub mod time_range;
pub mod update_calendar;
pub mod update_item;
pub mod uri;
pub mod well_known;
