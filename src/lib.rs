pub mod github;
pub mod nanoleaf;
pub mod poll_loop;
