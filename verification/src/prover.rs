//! The prover reporter boundary: turns each job result an external prover
//! worker sends into the one action the persistence driver must take —
//! saving a proof, recording an error, emitting a timing metric, or
//! uploading a debug assembly blob.

use vstd::prelude::*;
use vstd::string::StringExecFns;

verus! {

/// The decimal digit character for `d`.
pub open spec fn spec_digit_char(d: int) -> char {
    if d == 0 {
        '0'
    } else if d == 1 {
        '1'
    } else if d == 2 {
        '2'
    } else if d == 3 {
        '3'
    } else if d == 4 {
        '4'
    } else if d == 5 {
        '5'
    } else if d == 6 {
        '6'
    } else if d == 7 {
        '7'
    } else if d == 8 {
        '8'
    } else {
        '9'
    }
}

/// The decimal notation of `n`, most significant digit first.
pub open spec fn spec_decimal(n: nat) -> Seq<char>
    decreases n,
{
    if n < 10 {
        seq![spec_digit_char(n as int)]
    } else {
        spec_decimal(n / 10).push(spec_digit_char((n % 10) as int))
    }
}

fn digit_str(d: u64) -> (r: &'static str)
    requires
        d < 10,
    ensures
        r@ == seq![spec_digit_char(d as int)],
{
    proof {
        reveal_strlit("0");
        reveal_strlit("1");
        reveal_strlit("2");
        reveal_strlit("3");
        reveal_strlit("4");
        reveal_strlit("5");
        reveal_strlit("6");
        reveal_strlit("7");
        reveal_strlit("8");
        reveal_strlit("9");
    }
    let r: &'static str = match d {
        0 => "0",
        1 => "1",
        2 => "2",
        3 => "3",
        4 => "4",
        5 => "5",
        6 => "6",
        7 => "7",
        8 => "8",
        _ => "9",
    };
    proof {
        assert(r@ =~= seq![spec_digit_char(d as int)]);
    }
    r
}

/// Appends the decimal notation of `n` to `s`.
fn push_decimal(s: &mut String, n: u64)
    ensures
        final(s)@ == old(s)@ + spec_decimal(n as nat),
    decreases n,
{
    if n >= 10 {
        push_decimal(s, n / 10);
        let digit = digit_str(n % 10);
        s.append(digit);
        proof {
            assert(s@ =~= old(s)@ + spec_decimal(n as nat));
        }
    } else {
        let digit = digit_str(n);
        s.append(digit);
        proof {
            assert(s@ =~= old(s)@ + spec_decimal(n as nat));
        }
    }
}

/// The object-store name under which a failing job's assembly is kept for
/// debugging, in the prover-jobs bucket.
pub fn assembly_debug_blob_url(job_id: usize, circuit_id: u8) -> (r: String)
    ensures
        r@ == "assembly_debugging_"@ + spec_decimal(job_id as nat) + "_"@ + spec_decimal(
            circuit_id as nat,
        ) + ".bin"@,
{
    let mut url = String::new();
    url.append("assembly_debugging_");
    push_decimal(&mut url, job_id as u64);
    url.append("_");
    push_decimal(&mut url, circuit_id as u64);
    url.append(".bin");
    proof {
        assert(url@ =~= "assembly_debugging_"@ + spec_decimal(job_id as nat) + "_"@ + spec_decimal(
            circuit_id as nat,
        ) + ".bin"@);
    }
    url
}

/// What an external prover worker reports about one job. Durations arrive
/// in milliseconds; a generated proof arrives already serialized.
#[derive(Debug)]
pub enum JobResult {
    Failure { job_id: usize, error: String },
    ProofGenerated { job_id: usize, duration_millis: u64, serialized_proof: Vec<u8>, index: usize },
    Synthesized { job_id: usize, duration_millis: u64 },
    AssemblyFinalized { job_id: usize, duration_millis: u64 },
    SetupLoaded { job_id: usize, duration_millis: u64, cache_miss: bool },
    AssemblyEncoded { job_id: usize, duration_millis: u64 },
    AssemblyDecoded { job_id: usize, duration_millis: u64 },
    FailureWithDebugging { job_id: usize, circuit_id: u8, assembly: Vec<u8>, error: String },
    AssemblyTransferred { job_id: usize, duration_millis: u64 },
    ProverWaitedIdle { prover_id: usize, duration_millis: u64 },
    SetupLoaderWaitedIdle { duration_millis: u64 },
    SchedulerWaitedIdle { duration_millis: u64 },
}

/// The timing histograms the reporter feeds.
#[derive(Clone, Copy, PartialEq, Eq, Structural, Debug)]
pub enum ProverMetric {
    ProofGenerationTime,
    CircuitSynthesisTime,
    AssemblyFinalizeTime,
    SetupLoadTime,
    AssemblyEncodingTime,
    AssemblyDecodingTime,
    AssemblyTransferringTime,
    ProverWaitIdleTime,
    SetupLoadWaitIdleTime,
    SchedulerWaitIdleTime,
}

/// The one action the persistence driver must take for a report.
#[derive(Debug)]
pub enum ReportAction {
    /// Save the serialized proof under the job, tagged with who processed
    /// it, and verify in the same transaction that the job row exists;
    /// emit the proof-generation histogram tagged with the job's circuit
    /// type. A failure to persist is fatal.
    SaveProof { job_id: u32, duration_millis: u64, serialized_proof: Vec<u8>, processed_by: String },
    /// Record the error against the job, bounded by the configured number
    /// of attempts.
    SaveProofError { job_id: u32, error: String, max_attempts: u32 },
    /// Emit a histogram tagged with the job's circuit type, which takes a
    /// job lookup.
    RecordCircuitMetric { metric: ProverMetric, job_id: u32, duration_millis: u64 },
    /// Emit a plain histogram, no job lookup involved.
    RecordMetric { metric: ProverMetric, duration_millis: u64 },
    /// Emit the setup-load histogram and, on a cache miss, bump the miss
    /// counter, both tagged with the job's circuit type.
    RecordSetupLoad { job_id: u32, duration_millis: u64, cache_miss: bool },
    /// Upload the assembly to the prover-jobs bucket under the debug blob
    /// name. A failed upload is fatal.
    UploadDebugAssembly { blob_url: String, assembly: Vec<u8> },
}

/// Sink for job results from external prover workers. `processed_by` tags
/// saved proofs with their originator (the pod name, where one is set).
#[derive(Debug)]
pub struct ProverReporter {
    pub max_attempts: u32,
    pub processed_by: String,
}

/// Job identifiers are stored as 32-bit rows.
pub open spec fn spec_job_id_fits(report: JobResult) -> bool {
    match report {
        JobResult::Failure { job_id, .. } => job_id <= u32::MAX,
        JobResult::ProofGenerated { job_id, .. } => job_id <= u32::MAX,
        JobResult::Synthesized { job_id, .. } => job_id <= u32::MAX,
        JobResult::AssemblyFinalized { job_id, .. } => job_id <= u32::MAX,
        JobResult::SetupLoaded { job_id, .. } => job_id <= u32::MAX,
        JobResult::AssemblyEncoded { job_id, .. } => job_id <= u32::MAX,
        JobResult::AssemblyDecoded { job_id, .. } => job_id <= u32::MAX,
        JobResult::FailureWithDebugging { .. } => true,
        JobResult::AssemblyTransferred { job_id, .. } => job_id <= u32::MAX,
        JobResult::ProverWaitedIdle { .. } => true,
        JobResult::SetupLoaderWaitedIdle { .. } => true,
        JobResult::SchedulerWaitedIdle { .. } => true,
    }
}

impl ProverReporter {
    pub fn new(max_attempts: u32, processed_by: String) -> (r: ProverReporter)
        ensures
            r.max_attempts == max_attempts,
            r.processed_by@ == processed_by@,
    {
        ProverReporter { max_attempts, processed_by }
    }

    /// Maps one job result to the action it demands.
    pub fn send_report(&self, report: JobResult) -> (action: ReportAction)
        requires
            spec_job_id_fits(report),
        ensures
            report matches JobResult::Failure { job_id, error } ==> action
                == (ReportAction::SaveProofError {
                job_id: job_id as u32,
                error,
                max_attempts: self.max_attempts,
            }),
            report matches JobResult::ProofGenerated {
                job_id,
                duration_millis,
                serialized_proof,
                index,
            } ==> action matches ReportAction::SaveProof {
                job_id: out_id,
                duration_millis: out_d,
                serialized_proof: out_p,
                processed_by: out_by,
            } && out_id == job_id as u32 && out_d == duration_millis && out_p@ == serialized_proof@
                && out_by@ == self.processed_by@,
            report matches JobResult::Synthesized { job_id, duration_millis } ==> action
                == (ReportAction::RecordCircuitMetric {
                metric: ProverMetric::CircuitSynthesisTime,
                job_id: job_id as u32,
                duration_millis,
            }),
            report matches JobResult::AssemblyFinalized { job_id, duration_millis } ==> action
                == (ReportAction::RecordCircuitMetric {
                metric: ProverMetric::AssemblyFinalizeTime,
                job_id: job_id as u32,
                duration_millis,
            }),
            report matches JobResult::SetupLoaded { job_id, duration_millis, cache_miss }
                ==> action == (ReportAction::RecordSetupLoad {
                job_id: job_id as u32,
                duration_millis,
                cache_miss,
            }),
            report matches JobResult::AssemblyEncoded { job_id, duration_millis } ==> action
                == (ReportAction::RecordCircuitMetric {
                metric: ProverMetric::AssemblyEncodingTime,
                job_id: job_id as u32,
                duration_millis,
            }),
            report matches JobResult::AssemblyDecoded { job_id, duration_millis } ==> action
                == (ReportAction::RecordCircuitMetric {
                metric: ProverMetric::AssemblyDecodingTime,
                job_id: job_id as u32,
                duration_millis,
            }),
            report matches JobResult::FailureWithDebugging { job_id, circuit_id, assembly, error }
                ==> action matches ReportAction::UploadDebugAssembly {
                blob_url,
                assembly: out_assembly,
            } && blob_url@ == "assembly_debugging_"@ + spec_decimal(job_id as nat) + "_"@
                + spec_decimal(circuit_id as nat) + ".bin"@ && out_assembly@ == assembly@,
            report matches JobResult::AssemblyTransferred { job_id, duration_millis } ==> action
                == (ReportAction::RecordCircuitMetric {
                metric: ProverMetric::AssemblyTransferringTime,
                job_id: job_id as u32,
                duration_millis,
            }),
            report matches JobResult::ProverWaitedIdle { prover_id, duration_millis } ==> action
                == (ReportAction::RecordMetric {
                metric: ProverMetric::ProverWaitIdleTime,
                duration_millis,
            }),
            report matches JobResult::SetupLoaderWaitedIdle { duration_millis } ==> action
                == (ReportAction::RecordMetric {
                metric: ProverMetric::SetupLoadWaitIdleTime,
                duration_millis,
            }),
            report matches JobResult::SchedulerWaitedIdle { duration_millis } ==> action
                == (ReportAction::RecordMetric {
                metric: ProverMetric::SchedulerWaitIdleTime,
                duration_millis,
            }),
    {
        match report {
            JobResult::Failure { job_id, error } => ReportAction::SaveProofError {
                job_id: job_id as u32,
                error,
                max_attempts: self.max_attempts,
            },
            JobResult::ProofGenerated { job_id, duration_millis, serialized_proof, index: _ } => {
                ReportAction::SaveProof {
                    job_id: job_id as u32,
                    duration_millis,
                    serialized_proof,
                    processed_by: self.processed_by.clone(),
                }
            },
            JobResult::Synthesized { job_id, duration_millis } => {
                ReportAction::RecordCircuitMetric {
                    metric: ProverMetric::CircuitSynthesisTime,
                    job_id: job_id as u32,
                    duration_millis,
                }
            },
            JobResult::AssemblyFinalized { job_id, duration_millis } => {
                ReportAction::RecordCircuitMetric {
                    metric: ProverMetric::AssemblyFinalizeTime,
                    job_id: job_id as u32,
                    duration_millis,
                }
            },
            JobResult::SetupLoaded { job_id, duration_millis, cache_miss } => {
                ReportAction::RecordSetupLoad {
                    job_id: job_id as u32,
                    duration_millis,
                    cache_miss,
                }
            },
            JobResult::AssemblyEncoded { job_id, duration_millis } => {
                ReportAction::RecordCircuitMetric {
                    metric: ProverMetric::AssemblyEncodingTime,
                    job_id: job_id as u32,
                    duration_millis,
                }
            },
            JobResult::AssemblyDecoded { job_id, duration_millis } => {
                ReportAction::RecordCircuitMetric {
                    metric: ProverMetric::AssemblyDecodingTime,
                    job_id: job_id as u32,
                    duration_millis,
                }
            },
            JobResult::FailureWithDebugging { job_id, circuit_id, assembly, error: _ } => {
                ReportAction::UploadDebugAssembly {
                    blob_url: assembly_debug_blob_url(job_id, circuit_id),
                    assembly,
                }
            },
            JobResult::AssemblyTransferred { job_id, duration_millis } => {
                ReportAction::RecordCircuitMetric {
                    metric: ProverMetric::AssemblyTransferringTime,
                    job_id: job_id as u32,
                    duration_millis,
                }
            },
            JobResult::ProverWaitedIdle { prover_id: _, duration_millis } => {
                ReportAction::RecordMetric {
                    metric: ProverMetric::ProverWaitIdleTime,
                    duration_millis,
                }
            },
            JobResult::SetupLoaderWaitedIdle { duration_millis } => ReportAction::RecordMetric {
                metric: ProverMetric::SetupLoadWaitIdleTime,
                duration_millis,
            },
            JobResult::SchedulerWaitedIdle { duration_millis } => ReportAction::RecordMetric {
                metric: ProverMetric::SchedulerWaitIdleTime,
                duration_millis,
            },
        }
    }
}

} // verus!
