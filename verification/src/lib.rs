//! Catalog service core: the third-party login transaction (authorization
//! redirect, anti-forgery state kept in the session, callback validation and
//! the steps that follow it), together with the catalog's value types and the
//! decisions its request handlers take.

pub mod action;
pub mod callback;
pub mod entity;
pub mod games;
pub mod grade;
pub mod login;
pub mod provider;
pub mod response_body;
pub mod response_code;
pub mod service;
pub mod session;
pub mod sonic;
