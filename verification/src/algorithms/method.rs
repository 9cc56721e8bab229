//! The algorithms a request may name, and the one that is run.

use vstd::prelude::*;
use crate::text::text_is;

verus! {

/// The fewest anchors any algorithm works with.
pub const MIN_ANCHORS: usize = 3;

/// What a request may ask for.
#[derive(Clone, Copy, Debug, PartialEq, Eq, Structural)]
pub enum Algorithm {
    Basic,
    Weighted,
    LeastSquares,
    /// Let the number of anchors decide.
    Auto,
}

/// What is run.
#[derive(Clone, Copy, Debug, PartialEq, Eq, Structural)]
pub enum Method {
    /// Geometric trilateration on three anchors.
    Basic,
    /// Weighted linear least squares on all anchors.
    Weighted,
    /// Damped Gauss-Newton on all anchors.
    LeastSquares,
}

/// How the anchors of a method are weighted.
#[derive(Clone, Copy, Debug, PartialEq, Eq, Structural)]
pub enum Weighting {
    /// Every anchor counts as 1.
    Uniform,
    /// An anchor counts as `1 / (distance^2 + epsilon)`.
    InverseSquare,
}

impl Method {
    /// The method's name in requests and answers.
    pub open spec fn label(self) -> Seq<char> {
        match self {
            Method::Basic => "basic"@,
            Method::Weighted => "weighted"@,
            Method::LeastSquares => "least_squares"@,
        }
    }

    /// How the method weights its anchors.
    pub open spec fn spec_weighting(self) -> Weighting {
        match self {
            Method::Basic => Weighting::Uniform,
            Method::Weighted => Weighting::InverseSquare,
            Method::LeastSquares => Weighting::InverseSquare,
        }
    }

    /// The method's name in requests and answers.
    pub fn name(&self) -> (r: &'static str)
        ensures
            r@ == self.label(),
    {
        match self {
            Method::Basic => "basic",
            Method::Weighted => "weighted",
            Method::LeastSquares => "least_squares",
        }
    }

    /// How the method weights its anchors.
    pub fn weighting(&self) -> (r: Weighting)
        ensures
            r == self.spec_weighting(),
    {
        match self {
            Method::Basic => Weighting::Uniform,
            Method::Weighted => Weighting::InverseSquare,
            Method::LeastSquares => Weighting::InverseSquare,
        }
    }
}

impl Algorithm {
    /// The algorithm a name stands for.
    pub open spec fn spec_parse(name: Seq<char>) -> Option<Algorithm> {
        if name == "basic"@ {
            Some(Algorithm::Basic)
        } else if name == "weighted"@ {
            Some(Algorithm::Weighted)
        } else if name == "least_squares"@ {
            Some(Algorithm::LeastSquares)
        } else if name == "auto"@ {
            Some(Algorithm::Auto)
        } else {
            None
        }
    }

    /// The algorithm's name in requests.
    pub open spec fn label(self) -> Seq<char> {
        match self {
            Algorithm::Basic => "basic"@,
            Algorithm::Weighted => "weighted"@,
            Algorithm::LeastSquares => "least_squares"@,
            Algorithm::Auto => "auto"@,
        }
    }

    /// The method that is run on `anchors` anchors: none below three;
    /// otherwise the one asked for, and for `Auto` the weighted method on
    /// exactly three anchors and least squares on more.
    pub open spec fn spec_resolve(self, anchors: nat) -> Option<Method> {
        if anchors < MIN_ANCHORS {
            None
        } else {
            match self {
                Algorithm::Basic => Some(Method::Basic),
                Algorithm::Weighted => Some(Method::Weighted),
                Algorithm::LeastSquares => Some(Method::LeastSquares),
                Algorithm::Auto => if anchors == 3 {
                    Some(Method::Weighted)
                } else {
                    Some(Method::LeastSquares)
                },
            }
        }
    }

    /// The algorithm a name stands for, if it is one of the four names.
    pub fn parse(name: &String) -> (r: Option<Algorithm>)
        ensures
            r == Self::spec_parse(name@),
    {
        if text_is(name, "basic") {
            Some(Algorithm::Basic)
        } else if text_is(name, "weighted") {
            Some(Algorithm::Weighted)
        } else if text_is(name, "least_squares") {
            Some(Algorithm::LeastSquares)
        } else if text_is(name, "auto") {
            Some(Algorithm::Auto)
        } else {
            None
        }
    }

    /// The algorithm's name in requests.
    pub fn name(&self) -> (r: &'static str)
        ensures
            r@ == self.label(),
    {
        match self {
            Algorithm::Basic => "basic",
            Algorithm::Weighted => "weighted",
            Algorithm::LeastSquares => "least_squares",
            Algorithm::Auto => "auto",
        }
    }

    /// The method that is run on `anchors` anchors.
    pub fn resolve(&self, anchors: usize) -> (r: Option<Method>)
        ensures
            r == self.spec_resolve(anchors as nat),
    {
        if anchors < MIN_ANCHORS {
            None
        } else {
            match self {
                Algorithm::Basic => Some(Method::Basic),
                Algorithm::Weighted => Some(Method::Weighted),
                Algorithm::LeastSquares => Some(Method::LeastSquares),
                Algorithm::Auto => if anchors == 3 {
                    Some(Method::Weighted)
                } else {
                    Some(Method::LeastSquares)
                },
            }
        }
    }
}

/// Every algorithm is found again under its own name, and no other name
/// stands for one.
pub proof fn lemma_parse_label(a: Algorithm, name: Seq<char>)
    ensures
        Algorithm::spec_parse(a.label()) == Some(a),
        Algorithm::spec_parse(name) == Some(a) ==> name == a.label(),
        Algorithm::spec_parse(name) is Some <==> crate::network::request::known_algorithm(name),
{
    reveal_strlit("basic");
    reveal_strlit("weighted");
    reveal_strlit("least_squares");
    reveal_strlit("auto");
    assert("basic"@.len() == 5);
    assert("weighted"@.len() == 8);
    assert("least_squares"@.len() == 13);
    assert("auto"@.len() == 4);
}

/// With four anchors or more, `Auto` runs what `LeastSquares` runs.
pub proof fn lemma_auto_is_least_squares(anchors: nat)
    requires
        anchors >= 4,
    ensures
        Algorithm::Auto.spec_resolve(anchors) == Algorithm::LeastSquares.spec_resolve(anchors),
        Algorithm::Auto.spec_resolve(anchors) == Some(Method::LeastSquares),
{
}

/// With exactly three anchors, `Auto` runs what `Weighted` runs.
pub proof fn lemma_auto_is_weighted()
    ensures
        Algorithm::Auto.spec_resolve(3) == Algorithm::Weighted.spec_resolve(3),
        Algorithm::Auto.spec_resolve(3) == Some(Method::Weighted),
{
}

/// With fewer than three anchors nothing is run, whatever was asked for.
pub proof fn lemma_too_few_anchors(a: Algorithm, anchors: nat)
    ensures
        a.spec_resolve(anchors) is None <==> anchors < 3,
{
}

} // verus!
