pub mod amenity;
pub mod auth_flow;
pub mod balance;
pub mod config;
pub mod digits;
pub mod errors;
pub mod gate;
pub mod generator;
pub mod migrate;
pub mod models;
pub mod otp;
pub mod password;
pub mod response;
pub mod text;
pub mod token;
pub mod user_repository;
pub mod validation;
