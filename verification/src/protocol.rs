//! The wire schemas of the three endpoints of the remote service, and the
//! capability contracts every wire request and response implements.

pub mod api;
pub mod exist;
pub mod recommend;
pub mod search;
