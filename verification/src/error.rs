use metaplex_token_metadata::solana_program::program_error::ProgramError;
use vstd::prelude::*;

verus! {

#[verifier::external_type_specification]
#[verifier::external_body]
pub struct ExProgramError(ProgramError);

/// Why an instruction is refused.
#[derive(Debug, PartialEq, Eq)]
pub enum ErrorCode {
    /// The lottery is not open for this instruction.
    LotteryNotOpen,
    /// The lottery has not been closed yet.
    LotteryOpened,
    /// The lottery's end date has not passed yet.
    LotteryNotEnded,
    /// A date check failed: the sale has ended, or the dates are out of order,
    /// or the lottery has already started.
    ExpireDateInThePast,
    /// The buyer would hold more tickets than a buyer may.
    TicketLimited,
    /// Meant for a sold-out lottery, but never answered: a purchase of more tickets
    /// than remain aborts instead.
    AllTicketSold,
    /// More winners were asked for than a lottery can name.
    MaxWinnerError,
    /// The account given as a discount could not be read as one.
    DiscountUnreadable,
    /// The token-metadata decoder refused the account given as NFT metadata; this is
    /// its error.
    MetadataUnreadable(ProgramError),
}

} // verus!
