//! Game-server logic for a Honkai: Star Rail private server: packet framing,
//! command routing, and the handlers that turn the player's saved data and
//! the session state into responses.

pub mod avatar;
pub mod battle;
pub mod cmd;
pub mod data;
pub mod dispatch;
pub mod hex;
pub mod item;
pub mod lineup;
pub mod mission;
pub mod packet;
pub mod player;
pub mod proto;
pub mod scene;
pub mod sdk;
pub mod state;
pub mod text;
