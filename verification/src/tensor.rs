use vstd::prelude::*;

use crate::types::CoreError;

verus! {

/// The number of elements a shape describes: the product of its dimensions.
/// An empty shape describes a single scalar element.
pub open spec fn shape_product(s: Seq<usize>) -> nat
    decreases s.len(),
{
    if s.len() == 0 {
        1
    } else {
        (s[0] as nat) * shape_product(s.skip(1))
    }
}

/// Appending one dimension multiplies the element count by it.
pub proof fn lemma_shape_product_push(s: Seq<usize>, d: usize)
    ensures
        shape_product(s.push(d)) == shape_product(s) * d,
    decreases s.len(),
{
    assert(shape_product(s.push(d)) == (s.push(d)[0] as nat) * shape_product(s.push(d).skip(1)));
    if s.len() == 0 {
        assert(s.push(d)[0] == d);
        assert(s.push(d).skip(1) =~= Seq::<usize>::empty());
        assert(shape_product(Seq::<usize>::empty()) == 1);
        assert(shape_product(s) == 1);
        assert(shape_product(s.push(d).skip(1)) == 1);
        assert((s.push(d)[0] as nat) * shape_product(s.push(d).skip(1)) == d) by (nonlinear_arith)
            requires
                s.push(d)[0] == d,
                shape_product(s.push(d).skip(1)) == 1,
        ;
    } else {
        assert(s.push(d).skip(1) =~= s.skip(1).push(d));
        lemma_shape_product_push(s.skip(1), d);
        assert(shape_product(s) == (s[0] as nat) * shape_product(s.skip(1)));
        assert((s[0] as nat) * (shape_product(s.skip(1)) * (d as nat)) == ((s[0] as nat)
            * shape_product(s.skip(1))) * (d as nat)) by (nonlinear_arith);
    }
}

/// Prefixing one dimension multiplies the element count by it.
pub proof fn lemma_shape_product_cons(d: usize, s: Seq<usize>)
    ensures
        shape_product(seq![d] + s) == d * shape_product(s),
{
    assert((seq![d] + s).skip(1) =~= s);
    assert((seq![d] + s)[0] == d);
}

/// A two-dimensional shape describes `a * b` elements.
pub proof fn lemma_shape_product_pair(a: usize, b: usize)
    ensures
        shape_product(seq![a, b]) == a * b,
{
    assert(shape_product(seq![a, b]) == (seq![a, b][0] as nat) * shape_product(seq![a, b].skip(1)));
    assert(seq![a, b].skip(1) =~= seq![b]);
    assert(shape_product(seq![b]) == (seq![b][0] as nat) * shape_product(seq![b].skip(1)));
    assert(seq![b].skip(1) =~= Seq::<usize>::empty());
    assert(shape_product(Seq::<usize>::empty()) == 1);
    assert(shape_product(seq![b]) == b) by (nonlinear_arith)
        requires
            shape_product(seq![b]) == (seq![b][0] as nat) * shape_product(seq![b].skip(1)),
            seq![b][0] == b,
            shape_product(seq![b].skip(1)) == 1,
    ;
    assert(shape_product(seq![a, b]) == a * b) by (nonlinear_arith)
        requires
            shape_product(seq![a, b]) == (seq![a, b][0] as nat) * shape_product(
                seq![a, b].skip(1),
            ),
            seq![a, b][0] == a,
            shape_product(seq![a, b].skip(1)) == b,
    ;
}

/// A shape with a zero dimension describes no elements.
pub proof fn lemma_shape_product_zero(s: Seq<usize>, i: int)
    requires
        0 <= i < s.len(),
        s[i] == 0,
    ensures
        shape_product(s) == 0,
    decreases s.len(),
{
    if i > 0 {
        lemma_shape_product_zero(s.skip(1), i - 1);
    }
    assert(s.len() > 0);
    assert(shape_product(s) == (s[0] as nat) * shape_product(s.skip(1)));
}

/// Extending a prefix of a shape by its next dimension multiplies the
/// prefix's element count by that dimension.
pub proof fn lemma_shape_product_take_step(s: Seq<usize>, i: int)
    requires
        0 <= i < s.len(),
    ensures
        shape_product(s.take(i + 1)) == shape_product(s.take(i)) * s[i],
{
    assert(s.take(i + 1) =~= s.take(i).push(s[i]));
    lemma_shape_product_push(s.take(i), s[i]);
}

/// The element count splits multiplicatively across any cut of the shape.
pub proof fn lemma_shape_product_split(s: Seq<usize>, i: int)
    requires
        0 <= i <= s.len(),
    ensures
        shape_product(s) == shape_product(s.take(i)) * shape_product(s.skip(i)),
    decreases i,
{
    if i == 0 {
        assert(s.take(0) =~= Seq::<usize>::empty());
        assert(shape_product(Seq::<usize>::empty()) == 1);
        assert(s.skip(0) =~= s);
    } else {
        lemma_shape_product_split(s, i - 1);
        lemma_shape_product_take_step(s, i - 1);
        assert(s.skip(i - 1) =~= seq![s[i - 1]] + s.skip(i));
        lemma_shape_product_cons(s[i - 1], s.skip(i));
        assert(shape_product(s.take(i - 1)) * ((s[i - 1] as nat) * shape_product(s.skip(i))) == (
        shape_product(s.take(i - 1)) * (s[i - 1] as nat)) * shape_product(s.skip(i)))
            by (nonlinear_arith);
    }
}

/// A shape whose dimensions are all positive describes at least one element.
pub proof fn lemma_shape_product_all_positive(s: Seq<usize>)
    requires
        forall|j: int| 0 <= j < s.len() ==> s[j] >= 1,
    ensures
        shape_product(s) >= 1,
    decreases s.len(),
{
    if s.len() > 0 {
        assert(forall|j: int| 0 <= j < s.skip(1).len() ==> #[trigger] s.skip(1)[j] >= 1);
        lemma_shape_product_all_positive(s.skip(1));
        assert((s[0] as nat) * shape_product(s.skip(1)) >= 1) by (nonlinear_arith)
            requires
                s[0] >= 1,
                shape_product(s.skip(1)) >= 1,
        ;
    }
}

/// Computes the element count of a shape, or reports that the count
/// exceeds the machine's addressable range.
pub fn checked_shape_product(shape: &Vec<usize>) -> (r: Option<usize>)
    ensures
        match r {
            Some(p) => p as nat == shape_product(shape@),
            None => shape_product(shape@) > usize::MAX,
        },
{
    let n: usize = shape.len();
    let mut i: usize = 0;
    while i < n
        invariant
            n == shape@.len(),
            0 <= i <= n,
            forall|j: int| 0 <= j < i ==> shape@[j] >= 1,
        decreases n - i,
    {
        if shape[i] == 0 {
            proof {
                lemma_shape_product_zero(shape@, i as int);
            }
            return Some(0);
        }
        i = i + 1;
    }
    let mut acc: usize = 1;
    let mut k: usize = 0;
    while k < n
        invariant
            n == shape@.len(),
            0 <= k <= n,
            forall|j: int| 0 <= j < n ==> shape@[j] >= 1,
            acc as nat == shape_product(shape@.take(k as int)),
        decreases n - k,
    {
        let d: usize = shape[k];
        proof {
            lemma_shape_product_take_step(shape@, k as int);
        }
        match acc.checked_mul(d) {
            Some(next) => {
                acc = next;
            },
            None => {
                proof {
                    lemma_shape_product_split(shape@, k as int + 1);
                    assert(forall|j: int|
                        0 <= j < shape@.skip(k as int + 1).len() ==> #[trigger] shape@.skip(
                            k as int + 1,
                        )[j] >= 1);
                    lemma_shape_product_all_positive(shape@.skip(k as int + 1));
                    assert(shape_product(shape@.take(k as int + 1)) * shape_product(
                        shape@.skip(k as int + 1),
                    ) >= shape_product(shape@.take(k as int + 1))) by (nonlinear_arith)
                        requires
                            shape_product(shape@.skip(k as int + 1)) >= 1,
                            shape_product(shape@.take(k as int + 1)) >= 0,
                    ;
                }
                return None;
            },
        }
        k = k + 1;
    }
    proof {
        assert(shape@.take(n as int) =~= shape@);
    }
    Some(acc)
}

/// An n-dimensional numeric container: an ordered shape together with the
/// elements it holds, laid out in row-major order.
///
/// The shape is fixed at creation and the element count always equals the
/// product of the shape's dimensions.
pub struct Tensor<T> {
    shape: Vec<usize>,
    data: Vec<T>,
}

impl<T> Tensor<T> {
    /// The tensor's shape, as a mathematical sequence.
    pub closed spec fn shape_spec(&self) -> Seq<usize> {
        self.shape@
    }

    /// The tensor's elements in row-major order, as a mathematical sequence.
    pub closed spec fn data_spec(&self) -> Seq<T> {
        self.data@
    }

    /// Well-formedness: the element count matches the shape.
    pub open spec fn wf(&self) -> bool {
        self.data_spec().len() == shape_product(self.shape_spec())
    }

    /// Creates a tensor from a shape and a flat element buffer.
    ///
    /// Succeeds exactly when the buffer holds as many elements as the
    /// shape describes; otherwise nothing is built and the shape
    /// disagreement is reported.
    pub fn new(shape: Vec<usize>, data: Vec<T>) -> (r: Result<Tensor<T>, CoreError>)
        ensures
            r is Ok <==> data@.len() == shape_product(shape@),
            r is Ok ==> r->Ok_0.shape_spec() == shape@ && r->Ok_0.data_spec() == data@
                && r->Ok_0.wf(),
            r is Err ==> r->Err_0 == CoreError::ShapeMismatch,
    {
        match checked_shape_product(&shape) {
            Some(p) => {
                if p == data.len() {
                    Ok(Tensor { shape, data })
                } else {
                    Err(CoreError::ShapeMismatch)
                }
            },
            None => {
                let n: usize = data.len();
                Err(CoreError::ShapeMismatch)
            },
        }
    }

    /// Creates a tensor from parts already known to agree.
    pub(crate) fn from_raw(shape: Vec<usize>, data: Vec<T>) -> (r: Tensor<T>)
        requires
            data@.len() == shape_product(shape@),
        ensures
            r.shape_spec() == shape@,
            r.data_spec() == data@,
            r.wf(),
    {
        Tensor { shape, data }
    }

    /// The tensor's shape.
    pub fn shape(&self) -> (r: &Vec<usize>)
        ensures
            r@ == self.shape_spec(),
    {
        &self.shape
    }

    /// The tensor's elements in row-major order.
    pub fn data(&self) -> (r: &Vec<T>)
        ensures
            r@ == self.data_spec(),
    {
        &self.data
    }

    /// Dissolves the tensor into its shape and its element buffer.
    pub fn into_parts(self) -> (r: (Vec<usize>, Vec<T>))
        ensures
            r.0@ == self.shape_spec(),
            r.1@ == self.data_spec(),
    {
        (self.shape, self.data)
    }
}

} // verus!
