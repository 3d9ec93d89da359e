//! The vocoder control state: loopback, the transmit and receive algorithms and the
//! set of algorithms that may be selected.

use vstd::prelude::*;
use crate::messages::{AlgorithmRequest, AlgorithmResponse, AlgorithmSequence, LoopbackRequest, LoopbackResponse};

verus! {

/// The vocoder algorithms of the service interface, in wire-code order.
#[derive(Debug, Clone, Copy, PartialEq, Eq, Hash, PartialOrd, Ord, Structural)]
pub enum Algorithm {
    /// De-selects other algorithms
    AlgNone,
    /// Raw audio samples
    AlgRaw,
    /// MELP vocoder
    AlgMelp,
    /// LPC vocoder
    AlgLpc,
    /// CVSD vocoder
    AlgCvsd,
    /// SPEEX vocoder
    AlgSpeex,
    /// G.729 vocoder
    AlgG729,
    /// G.711 vocoder
    AlgG711,
    /// MELPe with DTX and VAD
    AlgMelpeDtxVad,
}

/// The wire code of an algorithm.
pub open spec fn wire_code(algorithm: Algorithm) -> i32 {
    match algorithm {
        Algorithm::AlgNone => 0,
        Algorithm::AlgRaw => 1,
        Algorithm::AlgMelp => 2,
        Algorithm::AlgLpc => 3,
        Algorithm::AlgCvsd => 4,
        Algorithm::AlgSpeex => 5,
        Algorithm::AlgG729 => 6,
        Algorithm::AlgG711 => 7,
        Algorithm::AlgMelpeDtxVad => 8,
    }
}

/// The algorithm that a wire code names, if any.
pub open spec fn algorithm_of(code: i32) -> Option<Algorithm> {
    if code == 0 {
        Some(Algorithm::AlgNone)
    } else if code == 1 {
        Some(Algorithm::AlgRaw)
    } else if code == 2 {
        Some(Algorithm::AlgMelp)
    } else if code == 3 {
        Some(Algorithm::AlgLpc)
    } else if code == 4 {
        Some(Algorithm::AlgCvsd)
    } else if code == 5 {
        Some(Algorithm::AlgSpeex)
    } else if code == 6 {
        Some(Algorithm::AlgG729)
    } else if code == 7 {
        Some(Algorithm::AlgG711)
    } else if code == 8 {
        Some(Algorithm::AlgMelpeDtxVad)
    } else {
        None
    }
}

/// Every algorithm of the interface, in wire-code order.
pub open spec fn all_algorithms() -> Seq<Algorithm> {
    seq![
        Algorithm::AlgNone,
        Algorithm::AlgRaw,
        Algorithm::AlgMelp,
        Algorithm::AlgLpc,
        Algorithm::AlgCvsd,
        Algorithm::AlgSpeex,
        Algorithm::AlgG729,
        Algorithm::AlgG711,
        Algorithm::AlgMelpeDtxVad,
    ]
}

impl Algorithm {
    /// The wire code of this algorithm.
    pub fn code(self) -> (code: i32)
        ensures
            code == wire_code(self),
    {
        match self {
            Algorithm::AlgNone => 0,
            Algorithm::AlgRaw => 1,
            Algorithm::AlgMelp => 2,
            Algorithm::AlgLpc => 3,
            Algorithm::AlgCvsd => 4,
            Algorithm::AlgSpeex => 5,
            Algorithm::AlgG729 => 6,
            Algorithm::AlgG711 => 7,
            Algorithm::AlgMelpeDtxVad => 8,
        }
    }

    /// The algorithm that a wire code names; `None` for a code that names none.
    pub fn from_code(code: i32) -> (algorithm: Option<Algorithm>)
        ensures
            algorithm == algorithm_of(code),
    {
        match code {
            0 => Some(Algorithm::AlgNone),
            1 => Some(Algorithm::AlgRaw),
            2 => Some(Algorithm::AlgMelp),
            3 => Some(Algorithm::AlgLpc),
            4 => Some(Algorithm::AlgCvsd),
            5 => Some(Algorithm::AlgSpeex),
            6 => Some(Algorithm::AlgG729),
            7 => Some(Algorithm::AlgG711),
            8 => Some(Algorithm::AlgMelpeDtxVad),
            _ => None,
        }
    }
}

/// The abstract vocoder state: the fields of [`VocoderState`], with the supported
/// algorithms as a sequence.
pub struct VocoderModel {
    pub loopback: bool,
    pub tx_algorithm: Algorithm,
    pub rx_algorithm: Algorithm,
    pub supported: Seq<Algorithm>,
    pub is_tx_active: bool,
}

/// The state in which a vocoder starts: no loopback, no algorithm selected, every
/// algorithm supported, no transmission active.
pub open spec fn initial_model() -> VocoderModel {
    VocoderModel {
        loopback: false,
        tx_algorithm: Algorithm::AlgNone,
        rx_algorithm: Algorithm::AlgNone,
        supported: all_algorithms(),
        is_tx_active: false,
    }
}

/// Why a request to select the algorithm with the given wire code is refused, if it is:
/// the code names no algorithm, or it names one that is not supported.
pub open spec fn selection_error(supported: Seq<Algorithm>, code: i32) -> Option<Seq<char>> {
    match algorithm_of(code) {
        None => Some("Invalid algorithm"@),
        Some(algorithm) => if supported.contains(algorithm) {
            None
        } else {
            Some("Unsupported algorithm"@)
        },
    }
}

/// The state after a request to select the transmit algorithm by wire code: the
/// named algorithm becomes the transmit algorithm, unless the request is refused.
pub open spec fn tx_selected(m: VocoderModel, code: i32) -> VocoderModel {
    if selection_error(m.supported, code) is None {
        VocoderModel { tx_algorithm: algorithm_of(code).unwrap(), ..m }
    } else {
        m
    }
}

/// The state after a request to select the receive algorithm by wire code: the
/// named algorithm becomes the receive algorithm, unless the request is refused.
pub open spec fn rx_selected(m: VocoderModel, code: i32) -> VocoderModel {
    if selection_error(m.supported, code) is None {
        VocoderModel { rx_algorithm: algorithm_of(code).unwrap(), ..m }
    } else {
        m
    }
}

/// The state after loopback is switched on or off.
pub open spec fn loopback_set(m: VocoderModel, loopback: bool) -> VocoderModel {
    VocoderModel { loopback, ..m }
}

/// The state after transmission is aborted.
pub open spec fn tx_aborted(m: VocoderModel) -> VocoderModel {
    VocoderModel { is_tx_active: false, ..m }
}

/// A state-changing request to the vocoder, as a step of a run.
pub enum VocoderOp {
    /// Switch loopback on or off.
    SetLoopback(bool),
    /// Select the transmit algorithm by wire code.
    SelectTx(i32),
    /// Select the receive algorithm by wire code.
    SelectRx(i32),
    /// Abort transmission.
    AbortTx,
}

/// The state after one request, whether it is accepted or refused.
pub open spec fn applied(m: VocoderModel, op: VocoderOp) -> VocoderModel {
    match op {
        VocoderOp::SetLoopback(loopback) => loopback_set(m, loopback),
        VocoderOp::SelectTx(code) => tx_selected(m, code),
        VocoderOp::SelectRx(code) => rx_selected(m, code),
        VocoderOp::AbortTx => tx_aborted(m),
    }
}

/// The state after a run of requests, applied in order.
pub open spec fn run(m: VocoderModel, ops: Seq<VocoderOp>) -> VocoderModel
    decreases ops.len(),
{
    if ops.len() == 0 {
        m
    } else {
        applied(run(m, ops.drop_last()), ops.last())
    }
}

/// The wire code of the last transmit selection in a run that the supported list
/// accepts, if any.
pub open spec fn last_accepted_tx(supported: Seq<Algorithm>, ops: Seq<VocoderOp>) -> Option<i32>
    decreases ops.len(),
{
    if ops.len() == 0 {
        None
    } else {
        match ops.last() {
            VocoderOp::SelectTx(code) => if selection_error(supported, code) is None {
                Some(code)
            } else {
                last_accepted_tx(supported, ops.drop_last())
            },
            _ => last_accepted_tx(supported, ops.drop_last()),
        }
    }
}

/// The wire code of the last receive selection in a run that the supported list
/// accepts, if any.
pub open spec fn last_accepted_rx(supported: Seq<Algorithm>, ops: Seq<VocoderOp>) -> Option<i32>
    decreases ops.len(),
{
    if ops.len() == 0 {
        None
    } else {
        match ops.last() {
            VocoderOp::SelectRx(code) => if selection_error(supported, code) is None {
                Some(code)
            } else {
                last_accepted_rx(supported, ops.drop_last())
            },
            _ => last_accepted_rx(supported, ops.drop_last()),
        }
    }
}

/// VocoderState manages the internal state of the vocoder service
#[derive(Debug)]
pub struct VocoderState {
    pub loopback: bool,
    pub tx_algorithm: Algorithm,
    pub rx_algorithm: Algorithm,
    pub supported_algorithms: Vec<Algorithm>,
    pub is_tx_active: bool,
}

impl View for VocoderState {
    type V = VocoderModel;

    open spec fn view(&self) -> VocoderModel {
        VocoderModel {
            loopback: self.loopback,
            tx_algorithm: self.tx_algorithm,
            rx_algorithm: self.rx_algorithm,
            supported: self.supported_algorithms@,
            is_tx_active: self.is_tx_active,
        }
    }
}

impl Clone for VocoderState {
    fn clone(&self) -> (state: Self)
        ensures
            state@ == self@,
    {
        let mut supported: Vec<Algorithm> = Vec::new();
        for i in 0..self.supported_algorithms.len()
            invariant
                supported@ == self.supported_algorithms@.take(i as int),
        {
            supported.push(self.supported_algorithms[i]);
            proof {
                assert(self.supported_algorithms@.take(i + 1) =~= self.supported_algorithms@.take(
                    i as int,
                ).push(self.supported_algorithms@[i as int]));
            }
        }
        assert(self.supported_algorithms@.take(self.supported_algorithms@.len() as int)
            =~= self.supported_algorithms@);
        VocoderState {
            loopback: self.loopback,
            tx_algorithm: self.tx_algorithm,
            rx_algorithm: self.rx_algorithm,
            supported_algorithms: supported,
            is_tx_active: self.is_tx_active,
        }
    }
}

impl Default for VocoderState {
    fn default() -> (state: Self)
        ensures
            state@ == initial_model(),
    {
        let state = Self {
            loopback: false,
            tx_algorithm: Algorithm::AlgNone,
            rx_algorithm: Algorithm::AlgNone,
            supported_algorithms: vec![
                Algorithm::AlgNone,
                Algorithm::AlgRaw,
                Algorithm::AlgMelp,
                Algorithm::AlgLpc,
                Algorithm::AlgCvsd,
                Algorithm::AlgSpeex,
                Algorithm::AlgG729,
                Algorithm::AlgG711,
                Algorithm::AlgMelpeDtxVad,
            ],
            is_tx_active: false,
        };
        assert(state@.supported =~= all_algorithms());
        state
    }
}

impl VocoderState {
    /// Whether the algorithm is in the supported list.
    fn supports(&self, algorithm: Algorithm) -> (supported: bool)
        ensures
            supported == self.supported_algorithms@.contains(algorithm),
    {
        for i in 0..self.supported_algorithms.len()
            invariant
                forall|j: int| 0 <= j < i ==> self.supported_algorithms@[j] != algorithm,
        {
            if self.supported_algorithms[i] == algorithm {
                return true;
            }
        }
        false
    }

    /// The wire codes of the supported algorithms, in list order.
    pub fn get_algorithms_supported(&self) -> (response: AlgorithmSequence)
        ensures
            response.algorithms@ == self.supported_algorithms@.map_values(
                |a: Algorithm| wire_code(a),
            ),
    {
        let mut algorithms: Vec<i32> = Vec::new();
        for i in 0..self.supported_algorithms.len()
            invariant
                algorithms@ == self.supported_algorithms@.take(i as int).map_values(
                    |a: Algorithm| wire_code(a),
                ),
        {
            algorithms.push(self.supported_algorithms[i].code());
            proof {
                assert(self.supported_algorithms@.take(i + 1) =~= self.supported_algorithms@.take(
                    i as int,
                ).push(self.supported_algorithms@[i as int]));
            }
        }
        assert(self.supported_algorithms@.take(self.supported_algorithms@.len() as int)
            =~= self.supported_algorithms@);
        AlgorithmSequence { algorithms }
    }

    /// The current loopback setting.
    pub fn get_loopback(&self) -> (response: LoopbackResponse)
        ensures
            response.loopback == self.loopback,
    {
        LoopbackResponse { loopback: self.loopback }
    }

    /// Switch loopback on or off; nothing else changes.
    pub fn set_loopback(&mut self, request: LoopbackRequest)
        ensures
            final(self)@ == loopback_set(old(self)@, request.loopback),
            final(self)@ == applied(old(self)@, VocoderOp::SetLoopback(request.loopback)),
    {
        self.loopback = request.loopback;
    }

    /// The wire code of the transmit algorithm.
    pub fn get_tx_algorithm(&self) -> (response: AlgorithmResponse)
        ensures
            response.algorithm == wire_code(self.tx_algorithm),
    {
        AlgorithmResponse { algorithm: self.tx_algorithm.code() }
    }

    /// The wire code of the receive algorithm.
    pub fn get_rx_algorithm(&self) -> (response: AlgorithmResponse)
        ensures
            response.algorithm == wire_code(self.rx_algorithm),
    {
        AlgorithmResponse { algorithm: self.rx_algorithm.code() }
    }

    /// Check a request to select an algorithm against the supported list.
    fn check_selection(&self, request: AlgorithmRequest) -> (result: Result<Algorithm, String>)
        ensures
            match selection_error(self.supported_algorithms@, request.algorithm) {
                Some(message) => result matches Err(e) && e@ == message,
                None => result == Ok::<Algorithm, String>(algorithm_of(request.algorithm).unwrap()),
            },
    {
        let algorithm = match Algorithm::from_code(request.algorithm) {
            Some(algorithm) => algorithm,
            None => {
                return Err(String::from_str("Invalid algorithm"));
            },
        };
        if !self.supports(algorithm) {
            return Err(String::from_str("Unsupported algorithm"));
        }
        Ok(algorithm)
    }

    /// Select the transmit algorithm by wire code. A code that names no algorithm,
    /// or one that is not supported, is refused and the state is left as it was.
    pub fn set_tx_algorithm(&mut self, request: AlgorithmRequest) -> (result: Result<(), String>)
        ensures
            final(self)@ == tx_selected(old(self)@, request.algorithm),
            final(self)@ == applied(old(self)@, VocoderOp::SelectTx(request.algorithm)),
            match selection_error(old(self)@.supported, request.algorithm) {
                Some(message) => result matches Err(e) && e@ == message,
                None => result is Ok,
            },
    {
        match self.check_selection(request) {
            Ok(algorithm) => {
                self.tx_algorithm = algorithm;
                Ok(())
            },
            Err(e) => Err(e),
        }
    }

    /// Select the receive algorithm by wire code. A code that names no algorithm,
    /// or one that is not supported, is refused and the state is left as it was.
    pub fn set_rx_algorithm(&mut self, request: AlgorithmRequest) -> (result: Result<(), String>)
        ensures
            final(self)@ == rx_selected(old(self)@, request.algorithm),
            final(self)@ == applied(old(self)@, VocoderOp::SelectRx(request.algorithm)),
            match selection_error(old(self)@.supported, request.algorithm) {
                Some(message) => result matches Err(e) && e@ == message,
                None => result is Ok,
            },
    {
        match self.check_selection(request) {
            Ok(algorithm) => {
                self.rx_algorithm = algorithm;
                Ok(())
            },
            Err(e) => Err(e),
        }
    }

    /// Stop transmission; nothing else changes.
    pub fn abort_tx(&mut self)
        ensures
            final(self)@ == tx_aborted(old(self)@),
            final(self)@ == applied(old(self)@, VocoderOp::AbortTx),
    {
        self.is_tx_active = false;
    }
}

/// Wire codes and algorithms correspond one to one: the code of an algorithm names
/// it, and a code that names an algorithm is that algorithm's code.
pub proof fn lemma_wire_code_roundtrip(algorithm: Algorithm, code: i32)
    ensures
        algorithm_of(wire_code(algorithm)) == Some(algorithm),
        algorithm_of(code) == Some(algorithm) ==> wire_code(algorithm) == code,
        algorithm_of(code) is Some <==> 0 <= code <= 8,
{
}

/// A selection that is not refused is read back as the code that was written, and
/// leaves everything but the selected algorithm as it was; a refused one changes
/// nothing.
pub proof fn lemma_selection_read_back(m: VocoderModel, code: i32)
    ensures
        selection_error(m.supported, code) is None ==> {
            &&& wire_code(tx_selected(m, code).tx_algorithm) == code
            &&& wire_code(rx_selected(m, code).rx_algorithm) == code
            &&& tx_selected(m, code).rx_algorithm == m.rx_algorithm
            &&& rx_selected(m, code).tx_algorithm == m.tx_algorithm
        },
        selection_error(m.supported, code) is Some ==> tx_selected(m, code) == m && rx_selected(
            m,
            code,
        ) == m,
{
}

/// No request changes which algorithms are supported.
pub proof fn lemma_supported_unchanged(m: VocoderModel, code: i32, loopback: bool)
    ensures
        tx_selected(m, code).supported == m.supported,
        rx_selected(m, code).supported == m.supported,
        loopback_set(m, loopback).supported == m.supported,
        tx_aborted(m).supported == m.supported,
{
}

/// Loopback reads back as it was last set, and setting it touches nothing else;
/// after an abort no transmission is active, and nothing else has changed.
pub proof fn lemma_loopback_and_abort(m: VocoderModel, loopback: bool)
    ensures
        loopback_set(m, loopback).loopback == loopback,
        loopback_set(m, loopback).tx_algorithm == m.tx_algorithm,
        loopback_set(m, loopback).rx_algorithm == m.rx_algorithm,
        loopback_set(m, loopback).is_tx_active == m.is_tx_active,
        !tx_aborted(m).is_tx_active,
        tx_aborted(m).loopback == m.loopback,
        tx_aborted(m).tx_algorithm == m.tx_algorithm,
        tx_aborted(m).rx_algorithm == m.rx_algorithm,
        tx_aborted(tx_aborted(m)) == tx_aborted(m),
{
}

/// Selecting the same algorithm twice is the same as selecting it once, and the
/// transmit and receive selections do not interfere.
pub proof fn lemma_selection_idempotent_and_independent(m: VocoderModel, tx: i32, rx: i32)
    ensures
        tx_selected(tx_selected(m, tx), tx) == tx_selected(m, tx),
        rx_selected(rx_selected(m, rx), rx) == rx_selected(m, rx),
        tx_selected(rx_selected(m, rx), tx) == rx_selected(tx_selected(m, tx), rx),
{
}

/// Over any run of requests the supported list stays as it was, the transmit
/// algorithm is the one named by the last accepted transmit selection (or the one
/// it started with, if none was accepted), and likewise for the receive algorithm.
pub proof fn lemma_run(m: VocoderModel, ops: Seq<VocoderOp>)
    ensures
        run(m, ops).supported == m.supported,
        run(m, ops).tx_algorithm == match last_accepted_tx(m.supported, ops) {
            Some(code) => algorithm_of(code).unwrap(),
            None => m.tx_algorithm,
        },
        run(m, ops).rx_algorithm == match last_accepted_rx(m.supported, ops) {
            Some(code) => algorithm_of(code).unwrap(),
            None => m.rx_algorithm,
        },
        last_accepted_tx(m.supported, ops) matches Some(code) ==> wire_code(
            run(m, ops).tx_algorithm,
        ) == code,
        last_accepted_rx(m.supported, ops) matches Some(code) ==> wire_code(
            run(m, ops).rx_algorithm,
        ) == code,
    decreases ops.len(),
{
    if ops.len() > 0 {
        lemma_run(m, ops.drop_last());
        let before = run(m, ops.drop_last());
        match ops.last() {
            VocoderOp::SelectTx(code) => {
                lemma_selection_read_back(before, code);
            },
            VocoderOp::SelectRx(code) => {
                lemma_selection_read_back(before, code);
            },
            _ => {},
        }
    }
}

/// From the initial state, after any run of requests, accepted or refused: every
/// algorithm is still supported, so the reported codes are 0 to 8 in order; the
/// transmit algorithm reads back as the code of the last accepted transmit
/// selection, or `AlgNone` if there was none; and the same holds for receive.
pub proof fn lemma_run_from_initial(ops: Seq<VocoderOp>)
    ensures
        run(initial_model(), ops).supported == all_algorithms(),
        run(initial_model(), ops).supported.map_values(|a: Algorithm| wire_code(a)) == Seq::new(
            9,
            |i: int| i as i32,
        ),
        wire_code(run(initial_model(), ops).tx_algorithm) == match last_accepted_tx(
            all_algorithms(),
            ops,
        ) {
            Some(code) => code,
            None => wire_code(Algorithm::AlgNone),
        },
        wire_code(run(initial_model(), ops).rx_algorithm) == match last_accepted_rx(
            all_algorithms(),
            ops,
        ) {
            Some(code) => code,
            None => wire_code(Algorithm::AlgNone),
        },
{
    lemma_run(initial_model(), ops);
    assert(all_algorithms().map_values(|a: Algorithm| wire_code(a)) =~= Seq::new(
        9,
        |i: int| i as i32,
    ));
}

/// For every supported list: a selection is accepted exactly when some supported
/// algorithm has the requested wire code. A refused code is "Invalid algorithm" when
/// it lies outside 0..=8 and "Unsupported algorithm" when it names an algorithm
/// missing from the list.
pub proof fn lemma_selection_rule(supported: Seq<Algorithm>, code: i32)
    ensures
        selection_error(supported, code) is None <==> exists|i: int|
            0 <= i < supported.len() && wire_code(#[trigger] supported[i]) == code,
        !(0 <= code <= 8) ==> selection_error(supported, code) == Some("Invalid algorithm"@),
        (0 <= code <= 8 && !(exists|i: int|
            0 <= i < supported.len() && wire_code(#[trigger] supported[i]) == code))
            ==> selection_error(supported, code) == Some("Unsupported algorithm"@),
{
    if selection_error(supported, code) is None {
        let a = algorithm_of(code).unwrap();
        let i = choose|i: int| 0 <= i < supported.len() && supported[i] == a;
        assert(wire_code(supported[i]) == code);
    }
    if exists|i: int| 0 <= i < supported.len() && wire_code(#[trigger] supported[i]) == code {
        let i = choose|i: int| 0 <= i < supported.len() && wire_code(#[trigger] supported[i]) == code;
        assert(algorithm_of(code) == Some(supported[i]));
        assert(supported.contains(supported[i]));
    }
}

/// In the initial state every code that names an algorithm may be selected, and
/// every other code is refused as invalid.
pub proof fn lemma_initial_selection(code: i32)
    ensures
        selection_error(initial_model().supported, code) is None <==> 0 <= code <= 8,
        !(0 <= code <= 8) ==> selection_error(initial_model().supported, code) == Some(
            "Invalid algorithm"@,
        ),
{
    if 0 <= code <= 8 {
        let a = algorithm_of(code).unwrap();
        assert(all_algorithms()[code as int] == a);
    }
}

} // verus!
