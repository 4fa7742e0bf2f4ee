//! Observability surface: counters for record outcomes, histograms for
//! batch sizes and processing latency, and a health gauge.
//!
//! All counters saturate instead of wrapping.  Emission to a scrape
//! endpoint is the binary's concern; this type is the in-process state the
//! runtimes update, and its contracts are what the delivery properties are
//! stated over.

use vstd::prelude::*;

verus! {

/// `a + b`, saturating at `u64::MAX`.
pub open spec fn sat_add(a: u64, b: u64) -> u64 {
    if a + b <= u64::MAX {
        (a + b) as u64
    } else {
        u64::MAX
    }
}

/// Saturating addition is associative.
pub proof fn lemma_sat_add_assoc(a: u64, b: u64, c: u64)
    ensures
        sat_add(sat_add(a, b), c) == sat_add(a, sat_add(b, c)),
{
}

/// Metrics of one runtime, labelled by connector name and topic.
#[derive(Debug)]
pub struct ConnectorMetrics {
    /// Connector this runtime belongs to.
    pub connector_name: String,
    /// Topic label; a multi-topic runtime uses one aggregate label.
    pub topic: String,
    /// Records received from the broker.
    pub received: u64,
    /// Records acknowledged after successful processing.
    pub succeeded: u64,
    /// Records skipped and acknowledged as invalid data.
    pub invalid: u64,
    /// Retries performed (one per repeated plugin call).
    pub retried: u64,
    /// Records that ended in a terminal error.
    pub errored: u64,
    /// Observed batch sizes, in observation order.
    pub batch_sizes: Vec<u64>,
    /// Observed processing durations in milliseconds, in observation order.
    pub processing_ms: Vec<u64>,
    /// Health gauge: true while the runtime is live.
    pub healthy: bool,
}

impl ConnectorMetrics {
    /// Fresh metrics: every counter zero, no observations, not yet healthy.
    pub fn new(connector_name: String, topic: String) -> (m: ConnectorMetrics)
        ensures
            m.connector_name@ == connector_name@,
            m.topic@ == topic@,
            m.received == 0,
            m.succeeded == 0,
            m.invalid == 0,
            m.retried == 0,
            m.errored == 0,
            m.batch_sizes@.len() == 0,
            m.processing_ms@.len() == 0,
            m.healthy == false,
    {
        ConnectorMetrics {
            connector_name,
            topic,
            received: 0,
            succeeded: 0,
            invalid: 0,
            retried: 0,
            errored: 0,
            batch_sizes: Vec::new(),
            processing_ms: Vec::new(),
            healthy: false,
        }
    }

    /// Count `n` more received records.
    pub fn add_received(&mut self, n: u64)
        ensures
            *final(self) == (ConnectorMetrics { received: sat_add(old(self).received, n), ..*old(self) }),
    {
        self.received = if n <= u64::MAX - self.received {
            self.received + n
        } else {
            u64::MAX
        };
    }

    /// Count `n` more successfully processed records.
    pub fn add_succeeded(&mut self, n: u64)
        ensures
            *final(self) == (ConnectorMetrics { succeeded: sat_add(old(self).succeeded, n), ..*old(self) }),
    {
        self.succeeded = if n <= u64::MAX - self.succeeded {
            self.succeeded + n
        } else {
            u64::MAX
        };
    }

    /// Count `n` more records skipped as invalid data.
    pub fn add_invalid(&mut self, n: u64)
        ensures
            *final(self) == (ConnectorMetrics { invalid: sat_add(old(self).invalid, n), ..*old(self) }),
    {
        self.invalid = if n <= u64::MAX - self.invalid {
            self.invalid + n
        } else {
            u64::MAX
        };
    }

    /// Count `n` more retries.
    pub fn add_retried(&mut self, n: u64)
        ensures
            *final(self) == (ConnectorMetrics { retried: sat_add(old(self).retried, n), ..*old(self) }),
    {
        self.retried = if n <= u64::MAX - self.retried {
            self.retried + n
        } else {
            u64::MAX
        };
    }

    /// Count `n` more records that ended in a terminal error.
    pub fn add_errored(&mut self, n: u64)
        ensures
            *final(self) == (ConnectorMetrics { errored: sat_add(old(self).errored, n), ..*old(self) }),
    {
        self.errored = if n <= u64::MAX - self.errored {
            self.errored + n
        } else {
            u64::MAX
        };
    }

    /// Observe one batch size.
    pub fn record_batch_size(&mut self, size: u64)
        ensures
            *final(self) == (ConnectorMetrics {
                batch_sizes: final(self).batch_sizes,
                ..*old(self)
            }),
            final(self).batch_sizes@ == old(self).batch_sizes@.push(size),
    {
        self.batch_sizes.push(size);
    }

    /// Observe one processing duration, in milliseconds.
    pub fn record_processing_ms(&mut self, ms: u64)
        ensures
            *final(self) == (ConnectorMetrics {
                processing_ms: final(self).processing_ms,
                ..*old(self)
            }),
            final(self).processing_ms@ == old(self).processing_ms@.push(ms),
    {
        self.processing_ms.push(ms);
    }

    /// Set the health gauge.
    pub fn set_health(&mut self, healthy: bool)
        ensures
            *final(self) == (ConnectorMetrics { healthy, ..*old(self) }),
    {
        self.healthy = healthy;
    }
}

} // verus!
