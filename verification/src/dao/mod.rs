pub mod call_sign;
pub mod contact;
pub mod entity;
pub mod repeater;
pub mod repeater_link;
pub mod repeater_service;
