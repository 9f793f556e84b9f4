//! HTTP status codes.
use vstd::prelude::*;

verus! {

pub const OK: u16 = 200;

pub const ACCEPTED: u16 = 202;

pub const NO_CONTENT: u16 = 204;

pub const BAD_REQUEST: u16 = 400;

pub const UNAUTHORIZED: u16 = 401;

pub const FORBIDDEN: u16 = 403;

pub const NOT_FOUND: u16 = 404;

pub const METHOD_NOT_ALLOWED: u16 = 405;

pub const NOT_ACCEPTABLE: u16 = 406;

pub const CONFLICT: u16 = 409;

pub const UNSUPPORTED_MEDIA_TYPE: u16 = 415;

pub const INTERNAL_SERVER_ERROR: u16 = 500;

pub const SERVICE_UNAVAILABLE: u16 = 503;

} // verus!
