use vstd::prelude::*;

verus! {

/// One of the ten explicit Runge-Kutta schemes.
#[derive(Clone, Copy, PartialEq, Eq, Structural, Debug)]
pub enum SolverMethod {
    ForwardEuler,
    ExplicitMidpoint,
    Heun2,
    Ralston2,
    Kutta3,
    Wray3,
    Ralston3,
    SSPRK3,
    Classic4,
    Three8th,
}

/// `coef * k[stage]`: one term of a linear combination of stage slopes.
#[derive(Clone, Copy, PartialEq, Eq, Structural, Debug)]
pub struct Term {
    pub stage: usize,
    pub coef: i64,
}

/// A stage after the first: it samples the field at `t + h * node_num / node_den`
/// and at `y + (sum of terms) / den`.
pub struct Stage {
    pub node_num: i64,
    pub node_den: u64,
    pub terms: Vec<Term>,
    pub den: u64,
}

/// A Butcher tableau held sparsely: zero coefficients are left out, and each row
/// is a list of integer terms over one common denominator.
pub struct Tableau {
    pub stages: Vec<Stage>,
    pub weights: Vec<Term>,
    pub weight_den: u64,
}

#[verifier::ext_equal]
pub struct StageModel {
    pub node_num: i64,
    pub node_den: u64,
    pub terms: Seq<Term>,
    pub den: u64,
}

#[verifier::ext_equal]
pub struct TableauModel {
    /// The stages after the first; the first stage samples at `(t, y)`.
    pub stages: Seq<StageModel>,
    pub weights: Seq<Term>,
    pub weight_den: u64,
}

impl View for Stage {
    type V = StageModel;

    open spec fn view(&self) -> StageModel {
        StageModel {
            node_num: self.node_num,
            node_den: self.node_den,
            terms: self.terms@,
            den: self.den,
        }
    }
}

impl View for Tableau {
    type V = TableauModel;

    open spec fn view(&self) -> TableauModel {
        TableauModel {
            stages: self.stages@.map_values(|s: Stage| s@),
            weights: self.weights@,
            weight_den: self.weight_den,
        }
    }
}

/// Every term of `terms` refers to one of the first `n` stages.
pub open spec fn terms_below(terms: Seq<Term>, n: int) -> bool {
    forall|i: int| 0 <= i < terms.len() ==> #[trigger] terms[i].stage < n
}

impl StageModel {
    /// Stage number `j + 1` (0-based) may combine the slopes of stages `0..=j`.
    pub open spec fn wf(self, j: int) -> bool {
        &&& self.node_den > 0
        &&& self.den > 0
        &&& self.terms.len() >= 1
        &&& terms_below(self.terms, j + 1)
    }
}

impl TableauModel {
    /// Number of stages, the first one included.
    pub open spec fn n_stages(self) -> nat {
        self.stages.len() + 1
    }

    pub open spec fn wf(self) -> bool {
        &&& forall|j: int| 0 <= j < self.stages.len() ==> (#[trigger] self.stages[j]).wf(j)
        &&& self.weight_den > 0
        &&& self.weights.len() >= 1
        &&& terms_below(self.weights, self.n_stages() as int)
    }
}

pub open spec fn term(stage: usize, coef: i64) -> Term {
    Term { stage, coef }
}

pub open spec fn stage_model(node_num: i64, node_den: u64, terms: Seq<Term>, den: u64) -> StageModel {
    StageModel { node_num, node_den, terms, den }
}

impl SolverMethod {
    /// The published Butcher tableau of the method.
    pub open spec fn spec_tableau(self) -> TableauModel {
        match self {
            SolverMethod::ForwardEuler => TableauModel {
                stages: seq![],
                weights: seq![term(0, 1)],
                weight_den: 1,
            },
            SolverMethod::ExplicitMidpoint => TableauModel {
                stages: seq![stage_model(1, 2, seq![term(0, 1)], 2)],
                weights: seq![term(1, 1)],
                weight_den: 1,
            },
            SolverMethod::Heun2 => TableauModel {
                stages: seq![stage_model(1, 1, seq![term(0, 1)], 1)],
                weights: seq![term(0, 1), term(1, 1)],
                weight_den: 2,
            },
            SolverMethod::Ralston2 => TableauModel {
                stages: seq![stage_model(2, 3, seq![term(0, 2)], 3)],
                weights: seq![term(0, 1), term(1, 3)],
                weight_den: 4,
            },
            SolverMethod::Kutta3 => TableauModel {
                stages: seq![
                    stage_model(1, 2, seq![term(0, 1)], 2),
                    stage_model(1, 1, seq![term(0, -1 as i64), term(1, 2)], 1),
                ],
                weights: seq![term(0, 1), term(1, 4), term(2, 1)],
                weight_den: 6,
            },
            SolverMethod::Wray3 => TableauModel {
                stages: seq![
                    stage_model(8, 15, seq![term(0, 8)], 15),
                    stage_model(2, 3, seq![term(0, 3), term(1, 5)], 12),
                ],
                weights: seq![term(0, 1), term(2, 3)],
                weight_den: 4,
            },
            SolverMethod::Ralston3 => TableauModel {
                stages: seq![
                    stage_model(1, 2, seq![term(0, 1)], 2),
                    stage_model(3, 4, seq![term(1, 3)], 4),
                ],
                weights: seq![term(0, 2), term(1, 3), term(2, 4)],
                weight_den: 9,
            },
            SolverMethod::SSPRK3 => TableauModel {
                stages: seq![
                    stage_model(1, 1, seq![term(0, 1)], 1),
                    stage_model(1, 2, seq![term(0, 1), term(1, 1)], 4),
                ],
                weights: seq![term(0, 1), term(1, 1), term(2, 4)],
                weight_den: 6,
            },
            SolverMethod::Classic4 => TableauModel {
                stages: seq![
                    stage_model(1, 2, seq![term(0, 1)], 2),
                    stage_model(1, 2, seq![term(1, 1)], 2),
                    stage_model(1, 1, seq![term(2, 1)], 1),
                ],
                weights: seq![term(0, 1), term(1, 2), term(2, 2), term(3, 1)],
                weight_den: 6,
            },
            SolverMethod::Three8th => TableauModel {
                stages: seq![
                    stage_model(1, 3, seq![term(0, 1)], 3),
                    stage_model(2, 3, seq![term(0, -1 as i64), term(1, 3)], 3),
                    stage_model(1, 1, seq![term(0, 1), term(1, -1 as i64), term(2, 1)], 1),
                ],
                weights: seq![term(0, 1), term(1, 3), term(2, 3), term(3, 1)],
                weight_den: 8,
            },
        }
    }

    /// Every method's tableau is well formed.
    pub proof fn lemma_tableau_wf(self)
        ensures
            self.spec_tableau().wf(),
    {
        let tab = self.spec_tableau();
        assert forall|j: int| 0 <= j < tab.stages.len() implies (#[trigger] tab.stages[j]).wf(j) by {
            let st = tab.stages[j];
            assert(terms_below(st.terms, j + 1));
        }
    }

    /// Builds the method's tableau.
    pub fn tableau(self) -> (r: Tableau)
        ensures
            r@ == self.spec_tableau(),
            r@.wf(),
    {
        proof {
            self.lemma_tableau_wf();
        }
        let r = match self {
            SolverMethod::ForwardEuler => Tableau {
                stages: vec![],
                weights: vec![Term { stage: 0, coef: 1 }],
                weight_den: 1,
            },
            SolverMethod::ExplicitMidpoint => Tableau {
                stages: vec![new_stage(1, 2, vec![Term { stage: 0, coef: 1 }], 2)],
                weights: vec![Term { stage: 1, coef: 1 }],
                weight_den: 1,
            },
            SolverMethod::Heun2 => Tableau {
                stages: vec![new_stage(1, 1, vec![Term { stage: 0, coef: 1 }], 1)],
                weights: vec![Term { stage: 0, coef: 1 }, Term { stage: 1, coef: 1 }],
                weight_den: 2,
            },
            SolverMethod::Ralston2 => Tableau {
                stages: vec![new_stage(2, 3, vec![Term { stage: 0, coef: 2 }], 3)],
                weights: vec![Term { stage: 0, coef: 1 }, Term { stage: 1, coef: 3 }],
                weight_den: 4,
            },
            SolverMethod::Kutta3 => Tableau {
                stages: vec![
                    new_stage(1, 2, vec![Term { stage: 0, coef: 1 }], 2),
                    new_stage(1, 1, vec![Term { stage: 0, coef: -1 }, Term { stage: 1, coef: 2 }], 1),
                ],
                weights: vec![
                    Term { stage: 0, coef: 1 },
                    Term { stage: 1, coef: 4 },
                    Term { stage: 2, coef: 1 },
                ],
                weight_den: 6,
            },
            SolverMethod::Wray3 => Tableau {
                stages: vec![
                    new_stage(8, 15, vec![Term { stage: 0, coef: 8 }], 15),
                    new_stage(2, 3, vec![Term { stage: 0, coef: 3 }, Term { stage: 1, coef: 5 }], 12),
                ],
                weights: vec![Term { stage: 0, coef: 1 }, Term { stage: 2, coef: 3 }],
                weight_den: 4,
            },
            SolverMethod::Ralston3 => Tableau {
                stages: vec![
                    new_stage(1, 2, vec![Term { stage: 0, coef: 1 }], 2),
                    new_stage(3, 4, vec![Term { stage: 1, coef: 3 }], 4),
                ],
                weights: vec![
                    Term { stage: 0, coef: 2 },
                    Term { stage: 1, coef: 3 },
                    Term { stage: 2, coef: 4 },
                ],
                weight_den: 9,
            },
            SolverMethod::SSPRK3 => Tableau {
                stages: vec![
                    new_stage(1, 1, vec![Term { stage: 0, coef: 1 }], 1),
                    new_stage(1, 2, vec![Term { stage: 0, coef: 1 }, Term { stage: 1, coef: 1 }], 4),
                ],
                weights: vec![
                    Term { stage: 0, coef: 1 },
                    Term { stage: 1, coef: 1 },
                    Term { stage: 2, coef: 4 },
                ],
                weight_den: 6,
            },
            SolverMethod::Classic4 => Tableau {
                stages: vec![
                    new_stage(1, 2, vec![Term { stage: 0, coef: 1 }], 2),
                    new_stage(1, 2, vec![Term { stage: 1, coef: 1 }], 2),
                    new_stage(1, 1, vec![Term { stage: 2, coef: 1 }], 1),
                ],
                weights: vec![
                    Term { stage: 0, coef: 1 },
                    Term { stage: 1, coef: 2 },
                    Term { stage: 2, coef: 2 },
                    Term { stage: 3, coef: 1 },
                ],
                weight_den: 6,
            },
            SolverMethod::Three8th => Tableau {
                stages: vec![
                    new_stage(1, 3, vec![Term { stage: 0, coef: 1 }], 3),
                    new_stage(2, 3, vec![Term { stage: 0, coef: -1 }, Term { stage: 1, coef: 3 }], 3),
                    new_stage(
                        1,
                        1,
                        vec![
                            Term { stage: 0, coef: 1 },
                            Term { stage: 1, coef: -1 },
                            Term { stage: 2, coef: 1 },
                        ],
                        1,
                    ),
                ],
                weights: vec![
                    Term { stage: 0, coef: 1 },
                    Term { stage: 1, coef: 3 },
                    Term { stage: 2, coef: 3 },
                    Term { stage: 3, coef: 1 },
                ],
                weight_den: 8,
            },
        };
        assert(r@ =~~= self.spec_tableau());
        r
    }
}

fn new_stage(node_num: i64, node_den: u64, terms: Vec<Term>, den: u64) -> (r: Stage)
    ensures
        r@ == stage_model(node_num, node_den, terms@, den),
{
    Stage { node_num, node_den, terms, den }
}

} // verus!
