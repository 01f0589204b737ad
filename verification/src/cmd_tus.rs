pub mod data;
pub mod data_steps;
pub mod friend_steps;
pub mod friends;
pub mod laws;
pub mod read_back;
pub mod requests;
pub mod rows;
pub mod types;
pub mod variable_steps;
pub mod variables;
