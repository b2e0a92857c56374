use vstd::prelude::*;

use vstd::string::*;
verus! {

/// One member of a group, as the upstream service describes it.
pub struct Member {
    pub user_id: String,
    pub nickname: String,
    pub image_url: Option<String>,
    pub id: String,
    pub muted: bool,
    pub autokicked: bool,
    pub roles: Vec<String>,
    pub name: String,
}

/// A group with its members, as fetched for one request; timestamps are epoch seconds.
pub struct Group {
    pub id: String,
    pub name: String,
    pub group_type: String,
    pub description: String,
    pub image_url: Option<String>,
    pub creator_user_id: String,
    pub created_at: i64,
    pub updated_at: i64,
    pub members: Vec<Member>,
}

/// A file, image or other item attached to a message.
pub struct Attachment {
    pub attachment_type: String,
    pub url: Option<String>,
}

/// One message of a group.
pub struct Message {
    pub id: String,
    pub group_id: String,
    pub name: String,
    pub avatar_url: Option<String>,
    pub text: Option<String>,
    pub sender_id: String,
    pub sender_type: String,
    pub created_at: i64,
    pub system: bool,
    pub attachments: Option<Vec<Attachment>>,
    pub favorited_by: Vec<String>,
}

/// The signed-in user's profile.
pub struct User {
    pub id: String,
    pub name: String,
    pub email: String,
    pub image_url: String,
    pub phone_number: String,
    pub created_at: i64,
    pub updated_at: i64,
    pub locale: String,
    pub sms: bool,
}

/// The name that the placeholder user carries.
pub open spec fn unknown_user_name() -> Seq<char> {
    seq!['U', 'n', 'k', 'n', 'o', 'w', 'n', ' ', 'U', 's', 'e', 'r']
}

/// The placeholder user: named "Unknown User", every other field empty, zero or false.
pub open spec fn is_placeholder_user(u: User) -> bool {
    &&& u.name@ == unknown_user_name()
    &&& u.id@.len() == 0
    &&& u.email@.len() == 0
    &&& u.image_url@.len() == 0
    &&& u.phone_number@.len() == 0
    &&& u.created_at == 0
    &&& u.updated_at == 0
    &&& u.locale@.len() == 0
    &&& !u.sms
}

impl User {
    /// The user reported when no real profile can be had.
    pub fn placeholder() -> (u: User)
        ensures
            is_placeholder_user(u),
    {
        let name = String::from_str("Unknown User");
        proof {
            reveal_strlit("Unknown User");
        }
        assert(name@ =~= unknown_user_name());
        User {
            id: String::new(),
            name,
            email: String::new(),
            image_url: String::new(),
            phone_number: String::new(),
            created_at: 0,
            updated_at: 0,
            locale: String::new(),
            sms: false,
        }
    }
}

} // verus!
