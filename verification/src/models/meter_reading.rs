//! Water and electricity meter readings.

use vstd::prelude::*;

verus! {

/// One meter reading to record.
#[derive(Debug, Clone)]
pub struct MeterReadingRequest {
    pub room_id: i64,
    pub year: i32,
    pub month: i32,
    pub water_reading: i64,
    pub electric_reading: i64,
    pub reading_date: String,
    pub operator: Option<String>,
    /// A replaced meter may read lower than the previous reading.
    pub is_replacement: bool,
}

/// Several readings recorded together.
#[derive(Debug, Clone)]
pub struct BatchMeterReadingRequest {
    pub readings: Vec<MeterReadingRequest>,
}

/// Outcome of recording a reading.
#[derive(Debug, Clone)]
pub struct MeterReadingResponse {
    pub success: bool,
    pub message: String,
    pub id: Option<i64>,
}

} // verus!
