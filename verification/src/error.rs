use vstd::prelude::*;
use vstd::string::StringExecFns;

use crate::text::{decimal_text, usize_to_decimal};

verus! {

/// Errors reported by the chart library.
#[derive(Debug, Clone, PartialEq, Eq)]
pub enum ChartError {
    /// The drawing surface has a zero side.
    InvalidViewport { width: u32, height: u32 },
    /// An input violates a documented constraint; the text says which.
    InvalidData(String),
}

/// Result type of fallible chart operations.
pub type ChartResult<T> = Result<T, ChartError>;

/// The text shown for a viewport error: `invalid viewport size: width={width}, height={height}`
/// with both sizes in decimal.
pub open spec fn viewport_error_text(width: u32, height: u32) -> Seq<char> {
    "invalid viewport size: width="@ + decimal_text(width as nat) + ", height="@ + decimal_text(
        height as nat,
    )
}

fn format_viewport_error(width: u32, height: u32) -> (r: String)
    ensures
        r@ == viewport_error_text(width, height),
{
    let mut text = String::from_str("invalid viewport size: width=");
    let w = usize_to_decimal(width as usize);
    text.append(w.as_str());
    text.append(", height=");
    let h = usize_to_decimal(height as usize);
    text.append(h.as_str());
    text
}

/// The result is an `InvalidData` error with exactly the given text.
pub open spec fn is_invalid_data<T>(r: ChartResult<T>, text: Seq<char>) -> bool {
    r matches Err(ChartError::InvalidData(m)) && m@ == text
}

/// Builds an `InvalidData` error whose text is the given literal.
pub fn invalid_data(text: &str) -> (e: ChartError)
    ensures
        e matches ChartError::InvalidData(m) && m@ == text@,
{
    ChartError::InvalidData(String::from_str(text))
}

impl ChartError {
    /// The human-readable text of the error.
    pub fn message(&self) -> (r: String)
        ensures
            self matches ChartError::InvalidData(m) ==> r@ == "invalid data: "@ + m@,
            self matches ChartError::InvalidViewport { width, height } ==> r@
                == viewport_error_text(*width, *height),
    {
        match self {
            ChartError::InvalidViewport { width, height } => format_viewport_error(*width, *height),
            ChartError::InvalidData(m) => {
                let prefix = String::from_str("invalid data: ");
                proof {
                    reveal_strlit("invalid data: ");
                }
                prefix.concat(m.as_str())
            },
        }
    }
}

} // verus!
