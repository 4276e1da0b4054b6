//! Step bookkeeping for curves that meander through a space of several
//! variables.
//!
//! A meander is sampled at the instants `t = 0, dt, 2·dt, ...`. The cursor in
//! [`steps`] hands out the index of each instant in turn, together with the
//! curve it samples, so that the `n`-th value a fresh cursor produces is the
//! curve evaluated at `n · dt`.

pub mod steps;
