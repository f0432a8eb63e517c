//! Certificates: issuing them and showing what they say.

pub mod gen;
pub mod show;

use vstd::prelude::*;
use crate::easycert::gen::{gen_planned, law_sans_in_order, san_views, Gen, GenPlan, SanError};
use crate::easycert::show::Show;

verus! {

/// What is asked for: a certificate, or what one says.
pub enum EasyCertCmd {
    Gen(Gen),
    Show(Show),
}

/// The command line of the certificate tool.
pub struct Cmd {
    pub cmd: EasyCertCmd,
}

/// What is to be done for a command line.
pub enum EasyCertStep {
    /// Issue a certificate by this plan.
    Issue(GenPlan),
    /// Read the certificate and show it.
    Show(Show),
}

impl Cmd {
    /// What is to be done.
    pub fn run(self) -> (r: Result<EasyCertStep, SanError>)
        ensures
            match self.cmd {
                EasyCertCmd::Gen(gen) => match r {
                    Ok(EasyCertStep::Issue(plan)) => gen_planned(gen, Ok(plan)),
                    Ok(EasyCertStep::Show(_)) => false,
                    Err(e) => gen_planned(gen, Err(e)),
                },
                EasyCertCmd::Show(show) => r == Ok::<EasyCertStep, SanError>(
                    EasyCertStep::Show(show),
                ),
            },
    {
        match self.cmd {
            EasyCertCmd::Gen(gen) => match gen.run() {
                Ok(plan) => Ok(EasyCertStep::Issue(plan)),
                Err(e) => Err(e),
            },
            EasyCertCmd::Show(show) => Ok(EasyCertStep::Show(show)),
        }
    }
}

/// A command line is done as it asks: a certificate is issued by the plan for it or refused as
/// the plan is, and one that is to be shown is shown as it was asked for.
pub proof fn law_command_is_done_as_asked(cmd: Cmd, r: Result<EasyCertStep, SanError>, gen: Gen)
    requires
        call_ensures(Cmd::run, (cmd,), r),
    ensures
        cmd.cmd is Show ==> (r matches Ok(step) && step is Show),
        cmd.cmd matches EasyCertCmd::Show(show) ==> r == Ok::<EasyCertStep, SanError>(
            EasyCertStep::Show(show),
        ),
        cmd.cmd == EasyCertCmd::Gen(gen) ==> (r matches Ok(step) ==> (step
            matches EasyCertStep::Issue(plan) && plan.days == gen.days && plan.common_name@
            == gen.common_name@ && plan.sans@.len() == gen.subject_alt_names@.len())),
        cmd.cmd == EasyCertCmd::Gen(gen) && gen.subject_alt_names@.len() == 0 ==> r is Err,
{
    if cmd.cmd == EasyCertCmd::Gen(gen) && r is Ok {
        law_sans_in_order(gen.subject_alt_names@);
        let plan = (r->Ok_0)->Issue_0;
        assert(san_views(plan.sans@).len() == plan.sans@.len());
    }
}

} // verus!
