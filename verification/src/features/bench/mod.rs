//! Benchmark queries.
pub mod bench_repository;
