//! A gateway to a group-messaging service: it holds one user's access token,
//! plans the authenticated upstream calls, and turns their outcomes into the
//! payloads that the HTTP surface returns.
pub mod handlers;
pub mod json;
pub mod model;
pub mod pager;
pub mod text;
pub mod token_store;
pub mod upstream;

pub use handlers::{
    callback, list_reply, plan_list, plan_send, plan_user, send_reply, user_reply, Plan,
};
pub use json::JsonValue;
pub use model::{Attachment, Group, Member, Message, User};
pub use pager::{GroupPager, PageOutcome, PagerStep};
pub use text::push_decimal;
pub use token_store::TokenStore;
pub use upstream::{
    check_status, current_user_url, groups_page_url, messages_url, prepare_send, send_message_url,
    send_payload, sent_message_of, status_failure_text, UpstreamError, TOKEN_HEADER,
};
