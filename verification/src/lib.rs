//! The decisions of a bot that works through a language course in a browser and keeps
//! every question it meets, with its answer, in a store. The browser, the store and the
//! clock are driven from outside; this library decides what to look at, how to read what
//! was seen, and what to do next.
use vstd::prelude::*;

pub mod common;
pub mod db;
pub mod run;
pub mod text;
pub mod webdriver;

verus! {

} // verus!
