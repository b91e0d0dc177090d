pub mod models;
pub mod query;
pub mod routes;
pub mod weather_service;
