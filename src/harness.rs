use vstd::prelude::*;
use crate::config::BenchError;

verus! {

/// The number of workers per wave: the configured count, or the number of
/// physical cores where the configured count is 0. Never 0.
pub open spec fn worker_count_of(thread_count: i32, physical_cores: usize) -> Option<usize> {
    if thread_count < 0 {
        None
    } else if thread_count == 0 {
        if physical_cores >= 1 {
            Some(physical_cores)
        } else {
            None
        }
    } else {
        Some(thread_count as usize)
    }
}

/// Resolves the number of workers per wave; a negative count, or an automatic
/// count on a host that reports no core, is a configuration error.
pub fn resolve_worker_count(thread_count: i32, physical_cores: usize) -> (r: Result<usize, BenchError>)
    ensures
        worker_count_of(thread_count, physical_cores) matches Some(n) ==> r == Ok::<usize, BenchError>(n),
        worker_count_of(thread_count, physical_cores) is None ==> r == Err::<usize, BenchError>(
            BenchError::ConfigError,
        ),
        r matches Ok(n) ==> n >= 1,
{
    if thread_count < 0 {
        Err(BenchError::ConfigError)
    } else if thread_count == 0 {
        if physical_cores >= 1 {
            Ok(physical_cores)
        } else {
            Err(BenchError::ConfigError)
        }
    } else {
        Ok(thread_count as usize)
    }
}

/// Resolves the number of waves; a negative count is a configuration error.
pub fn resolve_iteration_count(iteration_count: i32) -> (r: Result<usize, BenchError>)
    ensures
        iteration_count >= 0 ==> r == Ok::<usize, BenchError>(iteration_count as usize),
        iteration_count < 0 ==> r == Err::<usize, BenchError>(BenchError::ConfigError),
{
    if iteration_count < 0 {
        Err(BenchError::ConfigError)
    } else {
        Ok(iteration_count as usize)
    }
}

/// Where a benchmark run stands.
#[derive(PartialEq, Eq, Structural, Clone, Copy, Debug)]
pub enum Phase {
    /// Not started.
    Idle,
    /// A wave is out: samples are awaited.
    Running,
    /// Every sample of the wave is in: the workers are being joined.
    Draining,
    /// Every wave is done; the samples are complete.
    Completed,
    /// A worker failed or the wave broke its protocol; no statistics follow.
    Fatal,
}

/// What the run reports to the harness.
#[derive(PartialEq, Eq, Structural, Clone, Copy, Debug)]
pub enum Event {
    /// The run is asked to begin.
    Start,
    /// A worker's sample (nanoseconds) came through the wave's channel.
    SampleReceived(u64),
    /// A worker of the wave terminated normally.
    WorkerJoined,
    /// A worker failed, or the channel closed early.
    WorkerFailed,
}

/// What the harness asks the run to do next.
#[derive(PartialEq, Eq, Structural, Clone, Copy, Debug)]
pub enum Action {
    /// Open a new channel and spawn this many workers.
    SpawnWave(usize),
    /// Receive one more sample.
    AwaitSample,
    /// Join one more worker.
    AwaitJoin,
    /// Reduce the samples and report.
    Report,
    /// End the run with an error and no statistics.
    Abort(BenchError),
    /// Nothing is left to do.
    Stop,
}

/// The state of a run as the contracts see it.
pub struct HarnessView {
    pub phase: Phase,
    pub worker_count: nat,
    pub iteration_count: nat,
    /// The index of the current wave (the number of waves done, once completed).
    pub iteration: nat,
    /// The samples received in the current wave.
    pub received: nat,
    /// The workers of the current wave joined so far.
    pub joined: nat,
    /// Every sample collected so far, in the order received.
    pub samples: Seq<u64>,
}

/// The state that starts wave `iteration` of `h`.
pub open spec fn start_wave(h: HarnessView, iteration: nat) -> HarnessView {
    HarnessView { phase: Phase::Running, iteration, received: 0, joined: 0, ..h }
}

/// The state that ends a run as fatal.
pub open spec fn fatal(h: HarnessView) -> (HarnessView, Action) {
    (HarnessView { phase: Phase::Fatal, ..h }, Action::Abort(BenchError::ConcurrencyError))
}

/// The next state of a run, and what to do next, after an event.
pub open spec fn transition(h: HarnessView, e: Event) -> (HarnessView, Action) {
    if h.phase == Phase::Completed || h.phase == Phase::Fatal {
        (h, Action::Stop)
    } else {
        match e {
            Event::Start => if h.phase != Phase::Idle {
                fatal(h)
            } else if h.iteration_count == 0 {
                (HarnessView { phase: Phase::Completed, ..h }, Action::Report)
            } else {
                (start_wave(h, 0), Action::SpawnWave(h.worker_count as usize))
            },
            Event::SampleReceived(s) => if h.phase != Phase::Running {
                fatal(h)
            } else if h.received + 1 == h.worker_count {
                (
                    HarnessView {
                        phase: Phase::Draining,
                        received: h.received + 1,
                        joined: 0,
                        samples: h.samples.push(s),
                        ..h
                    },
                    Action::AwaitJoin,
                )
            } else {
                (
                    HarnessView { received: h.received + 1, samples: h.samples.push(s), ..h },
                    Action::AwaitSample,
                )
            },
            Event::WorkerJoined => if h.phase != Phase::Draining {
                fatal(h)
            } else if h.joined + 1 < h.worker_count {
                (HarnessView { joined: h.joined + 1, ..h }, Action::AwaitJoin)
            } else if h.iteration + 1 == h.iteration_count {
                (
                    HarnessView {
                        phase: Phase::Completed,
                        iteration: h.iteration + 1,
                        joined: h.joined + 1,
                        ..h
                    },
                    Action::Report,
                )
            } else {
                (start_wave(h, h.iteration + 1), Action::SpawnWave(h.worker_count as usize))
            },
            Event::WorkerFailed => fatal(h),
        }
    }
}

/// The number of samples that the waves done so far, and the current one, have
/// delivered.
pub open spec fn delivered(h: HarnessView) -> nat {
    match h.phase {
        Phase::Running => h.received,
        Phase::Draining => h.worker_count,
        _ => 0,
    }
}

/// The invariant of a run: waves are counted in order, and every sample held
/// belongs to a wave that is done or to the current one.
pub open spec fn consistent(h: HarnessView) -> bool {
    &&& h.worker_count >= 1
    &&& (h.phase == Phase::Running ==> h.iteration < h.iteration_count && h.received
        < h.worker_count)
    &&& (h.phase == Phase::Draining ==> h.iteration < h.iteration_count && h.joined
        < h.worker_count)
    &&& (h.phase == Phase::Completed ==> h.iteration == h.iteration_count)
    &&& (h.phase == Phase::Idle ==> h.iteration == 0)
    &&& (h.phase != Phase::Fatal ==> h.samples.len() == h.iteration * h.worker_count + delivered(h))
}

/// The decisions of a benchmark run, wave by wave: waves are strictly
/// sequential, each delivers exactly one sample per worker and has every
/// worker joined before the next begins.
pub struct Harness {
    phase: Phase,
    worker_count: usize,
    iteration_count: usize,
    iteration: usize,
    received: usize,
    joined: usize,
    samples: Vec<u64>,
}

impl View for Harness {
    type V = HarnessView;

    closed spec fn view(&self) -> HarnessView {
        HarnessView {
            phase: self.phase,
            worker_count: self.worker_count as nat,
            iteration_count: self.iteration_count as nat,
            iteration: self.iteration as nat,
            received: self.received as nat,
            joined: self.joined as nat,
            samples: self.samples@,
        }
    }
}

impl Harness {
    /// The harness's invariant.
    pub open spec fn wf(&self) -> bool {
        consistent(self@)
    }

    /// A harness for `worker_count` workers per wave and `iteration_count` waves.
    pub fn new(worker_count: usize, iteration_count: usize) -> (r: Harness)
        requires
            worker_count >= 1,
        ensures
            r.wf(),
            r@ == (HarnessView {
                phase: Phase::Idle,
                worker_count: worker_count as nat,
                iteration_count: iteration_count as nat,
                iteration: 0,
                received: 0,
                joined: 0,
                samples: Seq::empty(),
            }),
    {
        Harness {
            phase: Phase::Idle,
            worker_count,
            iteration_count,
            iteration: 0,
            received: 0,
            joined: 0,
            samples: Vec::new(),
        }
    }

    pub fn phase(&self) -> (r: Phase)
        ensures
            r == self@.phase,
    {
        self.phase
    }

    pub fn worker_count(&self) -> (r: usize)
        ensures
            r == self@.worker_count,
    {
        self.worker_count
    }

    pub fn samples(&self) -> (r: &Vec<u64>)
        ensures
            r@ == self@.samples,
    {
        &self.samples
    }

    /// Takes one event and says what to do next. Samples are only taken while a
    /// wave runs and joins only while it drains; anything else, or a failed
    /// worker, ends the run as fatal.
    pub fn step(&mut self, event: Event) -> (r: Action)
        requires
            old(self).wf(),
        ensures
            final(self).wf(),
            (final(self)@, r) == transition(old(self)@, event),
    {
        if self.phase == Phase::Completed || self.phase == Phase::Fatal {
            return Action::Stop;
        }
        match event {
            Event::Start => {
                if self.phase != Phase::Idle {
                    self.phase = Phase::Fatal;
                    return Action::Abort(BenchError::ConcurrencyError);
                }
                if self.iteration_count == 0 {
                    self.phase = Phase::Completed;
                    Action::Report
                } else {
                    self.phase = Phase::Running;
                    self.received = 0;
                    self.joined = 0;
                    Action::SpawnWave(self.worker_count)
                }
            },
            Event::SampleReceived(s) => {
                if self.phase != Phase::Running {
                    self.phase = Phase::Fatal;
                    return Action::Abort(BenchError::ConcurrencyError);
                }
                self.samples.push(s);
                self.received = self.received + 1;
                if self.received == self.worker_count {
                    self.phase = Phase::Draining;
                    self.joined = 0;
                    Action::AwaitJoin
                } else {
                    Action::AwaitSample
                }
            },
            Event::WorkerJoined => {
                if self.phase != Phase::Draining {
                    self.phase = Phase::Fatal;
                    return Action::Abort(BenchError::ConcurrencyError);
                }
                self.joined = self.joined + 1;
                if self.joined < self.worker_count {
                    return Action::AwaitJoin;
                }
                proof {
                    assert((self.iteration + 1) * self.worker_count == self.iteration
                        * self.worker_count + self.worker_count) by (nonlinear_arith);
                }
                self.iteration = self.iteration + 1;
                if self.iteration == self.iteration_count {
                    self.phase = Phase::Completed;
                    Action::Report
                } else {
                    self.phase = Phase::Running;
                    self.received = 0;
                    self.joined = 0;
                    Action::SpawnWave(self.worker_count)
                }
            },
            Event::WorkerFailed => {
                self.phase = Phase::Fatal;
                Action::Abort(BenchError::ConcurrencyError)
            },
        }
    }
}

/// Every transition keeps a consistent run consistent.
pub proof fn transition_keeps_consistency(h: HarnessView, e: Event)
    requires
        consistent(h),
    ensures
        consistent(transition(h, e).0),
        transition(h, e).0.worker_count == h.worker_count,
        transition(h, e).0.iteration_count == h.iteration_count,
{
    if h.phase == Phase::Draining && e == Event::WorkerJoined && h.joined + 1 == h.worker_count {
        assert((h.iteration + 1) * h.worker_count == h.iteration * h.worker_count + h.worker_count)
            by (nonlinear_arith);
    }
}

/// A completed run holds exactly one sample per worker and wave: never more,
/// never fewer.
pub proof fn completed_run_sample_count(h: HarnessView)
    requires
        consistent(h),
        h.phase == Phase::Completed,
    ensures
        h.samples.len() == h.worker_count * h.iteration_count,
{
    let w = h.worker_count;
    let n = h.iteration_count;
    assert(h.samples.len() == n * w);
    assert(n * w == w * n) by (nonlinear_arith);
}

/// A run in progress never holds more samples than a completed run will.
pub proof fn running_sample_bound(h: HarnessView)
    requires
        consistent(h),
        h.phase != Phase::Fatal,
    ensures
        h.samples.len() <= h.worker_count * h.iteration_count,
{
    let w = h.worker_count;
    let i = h.iteration;
    let n = h.iteration_count;
    if h.phase == Phase::Running || h.phase == Phase::Draining {
        assert((i + 1) * w <= n * w) by (nonlinear_arith)
            requires i + 1 <= n;
        assert((i + 1) * w == i * w + w) by (nonlinear_arith);
    }
    assert(n * w == w * n) by (nonlinear_arith);
    assert(i * w <= n * w) by (nonlinear_arith)
        requires i <= n;
}

} // verus!
