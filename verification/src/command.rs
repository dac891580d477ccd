pub mod channel;
pub mod chat;
pub mod command;
pub mod device;
pub mod push;
pub mod subscription;
pub mod text;
pub mod user;

pub use channel::ChannelCommands;
pub use chat::ChatCommands;
pub use command::{upload, upload_request, Cli, Commands, PaginationArgs, UploadRequestResponse};
pub use device::DeviceCommands;
pub use push::PushCommands;
pub use subscription::SubscriptionCommands;
pub use text::TextCommands;
pub use user::UserCommands;
