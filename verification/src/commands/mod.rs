pub mod add;
pub mod clone;
pub mod list;
pub mod push;
pub mod remote;
pub mod remove;
pub mod reset;
pub mod sync;
pub mod update;

pub use add::Add;
pub use list::List;
pub use push::Push;
pub use remote::Remote;
pub use remove::Remove;
pub use reset::Reset;
pub use sync::Sync;
pub use update::Update;
