//! ECMAScript built-in objects: array
//! buffers and data views, arrays, promises, generators, functions and the
//! heap bookkeeping around them, with their behaviour stated and proved.

pub mod value;
pub mod descriptor_map;
pub mod elements;
pub mod array;
pub mod arguments;
pub mod array_buffer;
pub mod numeric_bytes;
pub mod data_view;
pub mod promise;
pub mod iterator_helpers;
pub mod generator;
pub mod async_from_sync;
pub mod promise_finally;
pub mod async_generator;
pub mod function;
pub mod promise_group;
pub mod await_reaction;
pub mod error;
pub mod date;
pub mod array_species;
pub mod constructors;
pub mod promise_jobs;
pub mod promise_constructor;
pub mod promise_reject_function;
