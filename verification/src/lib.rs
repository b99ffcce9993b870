//! A universe of stars, planets and resources, filtered and searched.
//!
//! The records of a universe are stars, the planets that circle them and the
//! resources that lie on the planets. A user asks for planets of a certain
//! environment and, if they like, for one kind of resource. A pass of these
//! filters marks the planets that fit and the deposits of the resource
//! sought, rates each star by what was found in its system, counts what was
//! marked and lists the hits, richest first. Beside that, a search term is
//! resolved to the one star it names, and a point of the map to the star
//! nearest to it.
//!
//! Every measured quantity is a whole number of millionths (see `fixed`), so
//! that all of this is exact arithmetic on integers. Each type has a view,
//! its plain values, and every contract is stated over views.

pub mod catalog;
pub mod entities;
pub mod filtering;
pub mod fixed;
pub mod integrity;
pub mod laws;
pub mod lookup;
pub mod map;
pub mod marker;
pub mod options;
pub mod queries;
pub mod ranking;
pub mod resolve;
pub mod seqs;
pub mod session;
pub mod spatial;
pub mod text;
pub mod universe;
