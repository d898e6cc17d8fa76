use streamattn::{
    ActorError, Arith, Binary, BinaryOp, BinaryOpType, Emission, Exp, IncrMax, IncrOutP, IncrSum,
    MatVecProd, MinMax, QKTExp, ReduceOp, ReduceOpType, Rescale,
};

#[derive(Clone, Copy, Debug, PartialEq)]
struct Real(f64);

impl MinMax for Real {
    fn get_max(self, rhs: Real) -> Real {
        Real(self.0.max(rhs.0))
    }

    fn get_min_val() -> Real {
        Real(f64::MIN)
    }

    fn get_zero() -> Real {
        Real(0.0)
    }
}

impl Arith for Real {
    fn apply(op: BinaryOpType, lhs: Real, rhs: Real) -> Option<Real> {
        match op {
            BinaryOpType::Add => Some(Real(lhs.0 + rhs.0)),
            BinaryOpType::Sub => Some(Real(lhs.0 - rhs.0)),
            BinaryOpType::Mul => Some(Real(lhs.0 * rhs.0)),
            BinaryOpType::Div => {
                if rhs.0 == 0.0 {
                    None
                } else {
                    Some(Real(lhs.0 / rhs.0))
                }
            }
        }
    }
}

impl Exp for Real {
    fn exp(self) -> Option<Real> {
        let e = self.0.exp();
        if e.is_finite() {
            Some(Real(e))
        } else {
            None
        }
    }
}

type Stream = Vec<Emission<Real>>;

fn source(values: impl Iterator<Item = f64>) -> Stream {
    values.map(|v| Emission { value: Real(v), ready_time: 0 }).collect()
}

fn q_value(i: u64) -> f64 {
    (i as f64) * 0.01
}

fn kt_row(seq_len: u64) -> Stream {
    source((0..seq_len).map(|j| if j == 0 { 0.11 } else { 0.1 }))
}

fn score_row(a: &mut QKTExp<Real>, q: Emission<Real>, kts: &[Emission<Real>]) -> Stream {
    assert!(a.needs_query());
    a.hold_query(q.value);
    kts.iter()
        .map(|k| a.consume(k.value, k.ready_time.max(q.ready_time)).unwrap())
        .collect()
}

fn reduce_all(a: &mut ReduceOp<Real>, xs: &[Emission<Real>]) -> Stream {
    xs.iter().filter_map(|x| a.consume(x.value, x.ready_time).unwrap()).collect()
}

fn broadcast_all(a: &mut Binary<Real>, s: Emission<Real>, xs: &[Emission<Real>]) -> Result<Stream, ActorError> {
    assert!(a.needs_scalar());
    a.hold_scalar(s.value);
    xs.iter().map(|x| a.consume(x.value, x.ready_time.max(s.ready_time))).collect()
}

fn dot_all(a: &mut MatVecProd<Real>, xs: &[Emission<Real>], vs: &[Emission<Real>]) -> Stream {
    xs.iter()
        .zip(vs.iter())
        .filter_map(|(x, v)| a.consume(x.value, v.value, x.ready_time.max(v.ready_time)).unwrap())
        .collect()
}

fn running_max_all(a: &mut IncrMax<Real>, xs: &[Emission<Real>]) -> Vec<Rescale<Real>> {
    xs.iter().map(|x| a.consume(x.value, x.ready_time).unwrap()).collect()
}

fn running_sum_all(a: &mut IncrSum<Real>, rs: &[Rescale<Real>]) -> Stream {
    rs.iter().filter_map(|r| a.consume(r.delta, r.curr, r.ready_time).unwrap()).collect()
}

fn running_outp_all(a: &mut IncrOutP<Real>, rs: &[Rescale<Real>], vs: &[Emission<Real>]) -> Stream {
    rs.iter()
        .zip(vs.iter())
        .filter_map(|(r, v)| a.consume(r.delta, r.curr, v.value, r.ready_time.max(v.ready_time)).unwrap())
        .collect()
}

fn divide_pairs(a: &mut BinaryOp<Real>, lhs: &[Emission<Real>], rhs: &[Emission<Real>]) -> Stream {
    lhs.iter()
        .zip(rhs.iter())
        .map(|(l, r)| a.consume(l.value, r.value, l.ready_time.max(r.ready_time)).unwrap())
        .collect()
}

/// Score, running max, running sum, running outer product and a paired divide.
fn flash_attention(seq_len: u64, v_row: impl Fn(u64) -> Stream) -> Stream {
    let mut score = QKTExp::<Real>::new(1, 1, seq_len);
    let mut max = IncrMax::<Real>::new(1, 1, seq_len, seq_len);
    let mut sum = IncrSum::<Real>::new(1, 1, seq_len, seq_len);
    let mut outp = IncrOutP::<Real>::new(1, 1, seq_len, seq_len);
    let mut div = BinaryOp::<Real>::new(1, 1, seq_len, BinaryOpType::Div);
    let mut out = Vec::new();
    for i in 0..seq_len {
        let q = Emission { value: Real(q_value(i)), ready_time: 0 };
        let scores = score_row(&mut score, q, &kt_row(seq_len));
        let rescales = running_max_all(&mut max, &scores);
        let den = running_sum_all(&mut sum, &rescales);
        let num = running_outp_all(&mut outp, &rescales, &v_row(i));
        out.extend(divide_pairs(&mut div, &num, &den));
    }
    assert!(score.is_done() && max.is_done() && sum.is_done() && outp.is_done() && div.is_done());
    out
}

/// Score, row sum, broadcast divide and accumulation against V.
fn streamed_attention(seq_len: u64, v_row: impl Fn(u64) -> Stream) -> Stream {
    let mut score = QKTExp::<Real>::new(11, 1, seq_len);
    let mut rowsum = ReduceOp::<Real>::new(2, 1, seq_len, seq_len, ReduceOpType::Sum);
    let mut div = Binary::<Real>::new(8, 1, seq_len, seq_len, BinaryOpType::Div);
    let mut matvec = MatVecProd::<Real>::new(12, 1, seq_len, seq_len);
    let mut out = Vec::new();
    for i in 0..seq_len {
        let q = Emission { value: Real(q_value(i)), ready_time: 0 };
        let scores = score_row(&mut score, q, &kt_row(seq_len));
        let total = reduce_all(&mut rowsum, &scores);
        assert_eq!(total.len(), 1);
        let probs = broadcast_all(&mut div, total[0], &scores).unwrap();
        out.extend(dot_all(&mut matvec, &probs, &v_row(i)));
    }
    assert!(score.is_done() && rowsum.is_done() && div.is_done() && matvec.is_done());
    out
}

fn ones(seq_len: u64) -> impl Fn(u64) -> Stream {
    move |_| source((0..seq_len).map(|_| 1.0))
}

fn direct_softmax_row(seq_len: u64, i: u64, v: &[f64]) -> f64 {
    let q = q_value(i);
    let w: Vec<f64> = (0..seq_len).map(|j| (q * if j == 0 { 0.11 } else { 0.1 }).exp()).collect();
    let den: f64 = w.iter().sum();
    w.iter().zip(v.iter()).map(|(a, b)| a * b).sum::<f64>() / den
}

#[test]
fn qkt_test() {
    const SEQ_LEN: u64 = 64;
    let mut score = QKTExp::<Real>::new(11, 1, SEQ_LEN);
    let mut short = Vec::new();
    let mut long = Vec::new();
    for i in 0..SEQ_LEN {
        let q = Emission { value: Real(q_value(i)), ready_time: 0 };
        for e in score_row(&mut score, q, &kt_row(SEQ_LEN)) {
            short.push(e);
            long.push(e);
        }
    }
    assert!(score.is_done());
    assert_eq!(short.len(), (SEQ_LEN * SEQ_LEN) as usize);
    assert_eq!(short, long);
    assert!((short[65].value.0 - (0.01f64 * 0.1).exp()).abs() < 1e-12);
}

#[test]
fn reduce_test() {
    const SEQ_LEN: u64 = 64;
    let mut rowsum = ReduceOp::<Real>::new(23, 2, SEQ_LEN, SEQ_LEN, ReduceOpType::Sum);
    let qkt = source((0..SEQ_LEN * SEQ_LEN).map(|i| (i as f64) * 0.01));
    let out = reduce_all(&mut rowsum, &qkt);
    assert!(rowsum.is_done());
    assert_eq!(out.len(), SEQ_LEN as usize);
    for (r, e) in out.iter().enumerate() {
        let first = (r as u64) * SEQ_LEN;
        let expected: f64 = (first..first + SEQ_LEN).map(|i| (i as f64) * 0.01).sum();
        assert!((e.value.0 - expected).abs() < 1e-9);
    }
}

#[test]
fn division_test() {
    const SEQ_LEN: u64 = 64;
    let qkt = source((0..SEQ_LEN * SEQ_LEN).map(|i| (i as f64) * 0.01));
    let rowsum = source((0..SEQ_LEN).map(|i| (i as f64) * 0.01));
    let mut div = Binary::<Real>::new(8, 1, SEQ_LEN, SEQ_LEN, BinaryOpType::Div);
    let n = SEQ_LEN as usize;
    // The first row's divisor is zero: a domain error, not an infinity.
    assert_eq!(broadcast_all(&mut div, rowsum[0], &qkt[0..n]), Err(ActorError::DomainError));
    let mut div = Binary::<Real>::new(8, 1, SEQ_LEN, SEQ_LEN - 1, BinaryOpType::Div);
    for r in 1..n {
        let out = broadcast_all(&mut div, rowsum[r], &qkt[r * n..(r + 1) * n]).unwrap();
        assert_eq!(out.len(), n);
        assert!((out[0].value.0 - qkt[r * n].value.0 / rowsum[r].value.0).abs() < 1e-12);
    }
    assert!(div.is_done());
}

#[test]
fn matvec_test() {
    const SEQ_LEN: u64 = 64;
    let qkt = source((0..SEQ_LEN * SEQ_LEN).map(|i| (i as f64) * 0.01));
    let v = source((0..SEQ_LEN * SEQ_LEN).map(|i| (i as f64) * 0.01));
    let mut matvec = MatVecProd::<Real>::new(13, 2, SEQ_LEN, SEQ_LEN);
    let out = dot_all(&mut matvec, &qkt, &v);
    assert!(matvec.is_done());
    assert_eq!(out.len(), SEQ_LEN as usize);
    let expected: f64 = (0..SEQ_LEN).map(|i| ((i as f64) * 0.01) * ((i as f64) * 0.01)).sum();
    assert!((out[0].value.0 - expected).abs() < 1e-9);
}

#[test]
fn qkt_reduce_test() {
    const SEQ_LEN: u64 = 64;
    let mut score = QKTExp::<Real>::new(11, 1, SEQ_LEN);
    let mut rowsum = ReduceOp::<Real>::new(23, 2, SEQ_LEN, SEQ_LEN, ReduceOpType::Sum);
    let mut sums = Vec::new();
    for i in 0..SEQ_LEN {
        let q = Emission { value: Real(q_value(i)), ready_time: 0 };
        let scores = score_row(&mut score, q, &kt_row(SEQ_LEN));
        sums.extend(reduce_all(&mut rowsum, &scores));
    }
    assert!(rowsum.is_done());
    assert_eq!(sums.len(), SEQ_LEN as usize);
    assert!((sums[0].value.0 - SEQ_LEN as f64).abs() < 1e-9);
}

#[test]
fn qkt_red_div_test() {
    const SEQ_LEN: u64 = 256;
    let mut score = QKTExp::<Real>::new(11, 1, SEQ_LEN);
    let mut rowsum = ReduceOp::<Real>::new(23, 2, SEQ_LEN, SEQ_LEN, ReduceOpType::Sum);
    let mut div = Binary::<Real>::new(8, 1, SEQ_LEN, SEQ_LEN, BinaryOpType::Div);
    for i in 0..SEQ_LEN {
        let q = Emission { value: Real(q_value(i)), ready_time: 0 };
        let scores = score_row(&mut score, q, &kt_row(SEQ_LEN));
        let total = reduce_all(&mut rowsum, &scores);
        let probs = broadcast_all(&mut div, total[0], &scores).unwrap();
        let mass: f64 = probs.iter().map(|p| p.value.0).sum();
        assert!((mass - 1.0).abs() < 1e-9);
    }
    assert!(div.is_done());
}

#[test]
fn incremental_unit_test_qkt_red_div_matvec_test() {
    const SEQ_LEN: u64 = 4096;
    let v_row = |_: u64| source((0..SEQ_LEN).map(|j| if j == 0 { 0.11 } else { 0.1 }));
    let out = streamed_attention(SEQ_LEN, v_row);
    assert_eq!(out.len(), SEQ_LEN as usize);
    for (i, e) in out.iter().enumerate() {
        let v: Vec<f64> = (0..SEQ_LEN).map(|j| if j == 0 { 0.11 } else { 0.1 }).collect();
        if i % 512 == 0 {
            assert!((e.value.0 - direct_softmax_row(SEQ_LEN, i as u64, &v)).abs() < 1e-4);
        }
    }
}

#[test]
fn stream_spatial_streamed_attn() {
    const SEQ_LEN: u64 = 2048;
    let out = streamed_attention(SEQ_LEN, ones(SEQ_LEN));
    assert_eq!(out.len(), SEQ_LEN as usize);
    for e in &out {
        assert!((e.value.0 - 1.0).abs() < 0.0001);
    }
}

#[test]
fn flashattn_unbounded_seq_agnostic_attn() {
    const SEQ_LEN: u64 = 512;
    let out = flash_attention(SEQ_LEN, ones(SEQ_LEN));
    assert_eq!(out.len(), SEQ_LEN as usize);
    for e in &out {
        assert!((e.value.0 - 1.0).abs() < 0.0001);
    }
}

#[test]
fn flash_attention_of_sixteen_rows_is_one() {
    let out = flash_attention(16, ones(16));
    assert_eq!(out.len(), 16);
    for e in &out {
        assert!((e.value.0 - 1.0).abs() < 1e-4);
    }
    let out = streamed_attention(16, ones(16));
    assert_eq!(out.len(), 16);
    for e in &out {
        assert!((e.value.0 - 1.0).abs() < 1e-4);
    }
}

#[test]
fn streamed_divide_matches_direct_softmax() {
    for seq_len in 1..=24u64 {
        let v_of = |i: u64| -> Vec<f64> { (0..seq_len).map(|j| 0.5 + 0.03 * (j as f64) - 0.01 * (i as f64)).collect() };
        let mut score = QKTExp::<Real>::new(11, 1, seq_len);
        let mut rowsum = ReduceOp::<Real>::new(2, 1, seq_len, seq_len, ReduceOpType::Sum);
        let mut matvec = MatVecProd::<Real>::new(12, 1, seq_len, seq_len);
        let mut div = BinaryOp::<Real>::new(21, 1, seq_len, BinaryOpType::Div);
        for i in 0..seq_len {
            let q = Emission { value: Real(q_value(i)), ready_time: 0 };
            let scores = score_row(&mut score, q, &kt_row(seq_len));
            let den = reduce_all(&mut rowsum, &scores);
            let num = dot_all(&mut matvec, &scores, &source(v_of(i).into_iter()));
            let out = divide_pairs(&mut div, &num, &den);
            assert_eq!(out.len(), 1);
            assert!((out[0].value.0 - direct_softmax_row(seq_len, i, &v_of(i))).abs() < 1e-4);
        }
        assert!(div.is_done());
    }
}

#[test]
fn online_softmax_matches_two_pass_under_permutation() {
    let xs = [0.3, 2.0, -1.0, 5.0, 0.7, 4.9, -3.5, 1.25];
    let vs = [1.0, -2.0, 0.5, 3.0, 0.25, -1.5, 2.0, 0.75];
    let n = xs.len();
    let m = xs.iter().cloned().fold(f64::MIN, f64::max);
    let den: f64 = xs.iter().map(|x| (x - m).exp()).sum();
    let num: f64 = xs.iter().zip(vs.iter()).map(|(x, v)| (x - m).exp() * v).sum();
    let mut order: Vec<usize> = (0..n).collect();
    for round in 0..40 {
        // A fixed family of permutations: rotations and swaps.
        order.rotate_left(round % n);
        order.swap(round % n, (round * 3 + 1) % n);
        let mut max = IncrMax::<Real>::new(3, 1, n as u64, 1);
        let mut sum = IncrSum::<Real>::new(8, 2, n as u64, 1);
        let mut outp = IncrOutP::<Real>::new(12, 2, n as u64, 1);
        let row = source(order.iter().map(|&k| xs[k]));
        let vrow = source(order.iter().map(|&k| vs[k]));
        let rescales = running_max_all(&mut max, &row);
        let d = running_sum_all(&mut sum, &rescales);
        let u = running_outp_all(&mut outp, &rescales, &vrow);
        assert!((d[0].value.0 - den).abs() < 1e-9);
        assert!((u[0].value.0 - num).abs() < 1e-9);
    }
}

#[test]
fn outputs_do_not_depend_on_clock_readings() {
    const SEQ_LEN: u64 = 12;
    let run = |delay: u64| -> Vec<f64> {
        let mut score = QKTExp::<Real>::new(11, 1, SEQ_LEN);
        let mut rowsum = ReduceOp::<Real>::new(2, 3, SEQ_LEN, SEQ_LEN, ReduceOpType::Sum);
        let mut out = Vec::new();
        for i in 0..SEQ_LEN {
            let q = Emission { value: Real(q_value(i)), ready_time: i * delay };
            let kts: Stream = kt_row(SEQ_LEN)
                .into_iter()
                .enumerate()
                .map(|(j, k)| Emission { value: k.value, ready_time: (j as u64) * delay * 7 })
                .collect();
            let scores = score_row(&mut score, q, &kts);
            out.extend(reduce_all(&mut rowsum, &scores).into_iter().map(|e| e.value.0));
        }
        out
    };
    let unhurried = run(0);
    assert_eq!(unhurried, run(1));
    assert_eq!(unhurried, run(1000));

    let run_online = |delay: u64| -> Vec<f64> {
        let mut max = IncrMax::<Real>::new(3, 1, SEQ_LEN, 2);
        let mut sum = IncrSum::<Real>::new(8, 2, SEQ_LEN, 2);
        let mut outp = IncrOutP::<Real>::new(12, 2, SEQ_LEN, 2);
        let mut div = BinaryOp::<Real>::new(21, 1, 2, BinaryOpType::Div);
        let mut out = Vec::new();
        for row in 0..2u64 {
            let xs: Stream = (0..SEQ_LEN)
                .map(|j| Emission { value: Real(((j * 7 + row) % 5) as f64 * 0.3), ready_time: j * j * delay })
                .collect();
            let vs: Stream = (0..SEQ_LEN)
                .map(|j| Emission { value: Real(1.0 + j as f64), ready_time: (SEQ_LEN - j) * delay })
                .collect();
            let rescales = running_max_all(&mut max, &xs);
            let den = running_sum_all(&mut sum, &rescales);
            let num = running_outp_all(&mut outp, &rescales, &vs);
            out.extend(divide_pairs(&mut div, &num, &den).into_iter().map(|e| e.value.0));
        }
        out
    };
    let unhurried = run_online(0);
    assert_eq!(unhurried.len(), 2);
    assert_eq!(unhurried, run_online(3));
    assert_eq!(unhurried, run_online(250));
}

#[test]
fn running_max_reports_exponential_overflow() {
    let mut max = IncrMax::<Real>::new(1, 1, 2, 1);
    max.consume(Real(-1000.0), 0).unwrap();
    // The new maximum rescales the old one by exp(-1000 - 0), which underflows
    // to zero without error; only an overflow is a domain error.
    let r = max.consume(Real(0.0), 1).unwrap();
    assert_eq!(r.delta, Real(0.0));
    assert_eq!(r.curr, Real(1.0));
    let mut score = QKTExp::<Real>::new(1, 1, 1);
    score.hold_query(Real(1000.0));
    assert_eq!(score.consume(Real(1000.0), 0), Err(ActorError::DomainError));
}

#[test]
fn score_with_no_rows_is_done_at_once() {
    let score = QKTExp::<Real>::new(1, 1, 0);
    assert!(score.is_done());
    assert!(!score.needs_query());
    assert_eq!(score.input_ended(), Ok(()));
}

#[test]
fn score_emissions_follow_latency_and_interval() {
    let mut score = QKTExp::<Real>::new(11, 2, 2);
    score.hold_query(Real(0.0));
    assert_eq!(score.consume(Real(0.5), 0), Ok(Emission { value: Real(1.0), ready_time: 11 }));
    assert_eq!(score.consume(Real(0.5), 0), Ok(Emission { value: Real(1.0), ready_time: 13 }));
    assert!(score.needs_query());
    assert_eq!(score.input_ended(), Err(ActorError::ProtocolViolation));
}

#[test]
fn running_max_reseeds_each_group() {
    let mut max = IncrMax::<Real>::new(3, 1, 2, 2);
    let first = running_max_all(&mut max, &source([5.0, 1.0].into_iter()));
    let second = running_max_all(&mut max, &source([1.0, 2.0].into_iter()));
    assert_eq!((first[0].delta, first[0].curr), (Real(0.0), Real(1.0)));
    assert_eq!(first[1].delta, Real(1.0));
    assert!((first[1].curr.0 - (-4.0f64).exp()).abs() < 1e-15);
    // A fresh group starts from the lowest value again, not from 5.
    assert_eq!((second[0].delta, second[0].curr), (Real(0.0), Real(1.0)));
    assert!((second[1].delta.0 - (-1.0f64).exp()).abs() < 1e-15);
    assert_eq!(second[1].curr, Real(1.0));
    assert!(max.is_done());
}
