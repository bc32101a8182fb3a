use vstd::prelude::*;

use crate::error::ProgramError;
use crate::keys::Key;

verus! {

/// The errors of the minter program.
#[derive(Debug, Clone, Copy, PartialEq, Eq)]
pub enum MinterError {
    Dummy,
}

impl MinterError {
    /// The error's code.
    pub fn code(&self) -> (r: u32)
        ensures
            r == 0,
    {
        0
    }

    /// The error's message.
    pub fn message(&self) -> (r: &'static str)
        ensures
            r@ == "This is a dummy error"@,
    {
        "This is a dummy error"
    }
}

impl From<MinterError> for ProgramError {
    fn from(e: MinterError) -> (r: ProgramError) {
        ProgramError::Custom(0)
    }
}

impl vstd::std_specs::convert::FromSpecImpl<MinterError> for ProgramError {
    open spec fn obeys_from_spec() -> bool {
        true
    }

    open spec fn from_spec(e: MinterError) -> ProgramError {
        ProgramError::Custom(0)
    }
}

/// What `steel::parse_instruction` gives: `IncorrectProgramId` unless the
/// program is the one the instructions are for, `InvalidInstructionData` when
/// the data is empty, else the first byte and the rest.
pub open spec fn parse_outcome(
    api_id: Seq<u8>,
    program_id: Seq<u8>,
    data: Seq<u8>,
    r: Result<(u8, Vec<u8>), ProgramError>,
) -> bool {
    if program_id != api_id {
        r == Err::<(u8, Vec<u8>), ProgramError>(ProgramError::IncorrectProgramId)
    } else if data.len() == 0 {
        r == Err::<(u8, Vec<u8>), ProgramError>(ProgramError::InvalidInstructionData)
    } else {
        r matches Ok((tag, rest)) && tag == data[0] && rest@ == data.drop_first()
    }
}

/// Wraps `steel::parse_instruction`, read as a byte.
///
/// Claims what its source shows: `IncorrectProgramId` when the ids differ,
/// `InvalidInstructionData` when the data is empty, else the first byte and
/// the rest of the data.
#[verifier::external_body]
pub(crate) fn parse_instruction(api_id: &Key, program_id: &Key, data: &[u8]) -> (r: Result<
    (u8, Vec<u8>),
    ProgramError,
>)
    ensures
        parse_outcome(api_id@, program_id@, data@, r),
{
    let api = steel::Pubkey::new_from_array(*api_id);
    let program = steel::Pubkey::new_from_array(*program_id);
    match steel::parse_instruction::<u8>(&api, &program, data) {
        Ok((tag, rest)) => Ok((tag, rest.to_vec())),
        Err(steel::ProgramError::IncorrectProgramId) => Err(ProgramError::IncorrectProgramId),
        Err(_) => Err(ProgramError::InvalidInstructionData),
    }
}

/// The instructions of the minter program, by discriminator.
#[derive(Debug, Clone, Copy, PartialEq, Eq)]
pub enum MinterInstruction {
    Initialize,
    Add,
}

impl MinterInstruction {
    /// The instruction with the given discriminator, if any.
    pub fn from_discriminator(tag: u8) -> (r: Option<MinterInstruction>)
        ensures
            tag == 0 ==> r == Some(MinterInstruction::Initialize),
            tag == 1 ==> r == Some(MinterInstruction::Add),
            tag > 1 ==> r is None,
    {
        if tag == 0 {
            Some(MinterInstruction::Initialize)
        } else if tag == 1 {
            Some(MinterInstruction::Add)
        } else {
            None
        }
    }
}

/// The instruction a tag names: `InvalidInstructionData` for unknown tags.
pub open spec fn minter_instruction_of(tag: u8) -> Result<MinterInstruction, ProgramError> {
    if tag == 0 {
        Ok(MinterInstruction::Initialize)
    } else if tag == 1 {
        Ok(MinterInstruction::Add)
    } else {
        Err(ProgramError::InvalidInstructionData)
    }
}

/// Routes an instruction of the minter program: checks that `program_id` is
/// the minter's `api_id`, reads the discriminator and returns the instruction
/// it names with the data after it, for its handler.
pub fn process_instruction(program_id: &Key, data: &[u8], api_id: &Key) -> (r: Result<
    (MinterInstruction, Vec<u8>),
    ProgramError,
>)
    ensures
        program_id@ != api_id@ ==> (r is Err && r->Err_0 == ProgramError::IncorrectProgramId),
        (program_id@ == api_id@ && data@.len() == 0) ==> (r is Err && r->Err_0
            == ProgramError::InvalidInstructionData),
        (program_id@ == api_id@ && data@.len() > 0) ==> match minter_instruction_of(data@[0]) {
            Err(e) => r is Err && r->Err_0 == e,
            Ok(ix) => r matches Ok((i, rest)) && i == ix && rest@ == data@.drop_first(),
        },
{
    let (tag, rest) = parse_instruction(api_id, program_id, data)?;
    match MinterInstruction::from_discriminator(tag) {
        Some(ix) => Ok((ix, rest)),
        None => Err(ProgramError::InvalidInstructionData),
    }
}

} // verus!

verus! {

/// Law: the minter routes exactly the discriminators 0 (`Initialize`) and 1
/// (`Add`), two different tags to two different instructions, and answers
/// every other tag with `InvalidInstructionData`.
pub proof fn lemma_minter_routing(t1: u8, t2: u8)
    ensures
        minter_instruction_of(t1) is Ok <==> t1 < 2,
        t1 >= 2 ==> minter_instruction_of(t1) == Err::<MinterInstruction, ProgramError>(
            ProgramError::InvalidInstructionData,
        ),
        minter_instruction_of(0) == Ok::<MinterInstruction, ProgramError>(MinterInstruction::Initialize),
        t1 < 2 && t2 < 2 ==> (minter_instruction_of(t1) == minter_instruction_of(t2) <==> t1 == t2),
{
}

} // verus!
