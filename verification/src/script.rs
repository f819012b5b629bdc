//! Generation of the command script for the boot-loader scripting tool.
//!
//! The script is a fixed six-line template: a UART mode/baud/parity header
//! naming the target port, a startup delay, a baud-rate change, a
//! password-transmission directive naming the credential artifact, a
//! data-block directive naming the firmware artifact, and a program-counter
//! jump to the fixed entry address.

use vstd::prelude::*;
use vstd::string::StringExecFns;

use crate::errors::FlashError;

verus! {

/// The exact text of the generated script for a port and the two artifact
/// paths, each line ended by a newline.
pub open spec fn script_text(
    port: Seq<char>,
    firmware_path: Seq<char>,
    password_path: Seq<char>,
) -> Seq<char> {
    "MODE FRxx UART "@ + port
        + " BAUD 9600 PARITY E\nDELAY 1000\nCHANGE_BAUD_RATE 115200\nRX_PASSWORD "@
        + password_path + "\nRX_DATA_BLOCK "@ + firmware_path + "\nSET_PC 0x6586\n"@
}

/// Generates the script for `port`. The artifact paths arrive as text if
/// they are representable as text; a non-representable path is a hard
/// failure, the firmware path being checked first.
pub fn generate_script(
    port: &str,
    firmware_path: Option<&str>,
    password_path: Option<&str>,
) -> (r: Result<String, FlashError>)
    ensures
        firmware_path is None ==> r == Err::<String, FlashError>(FlashError::InvalidFirmwarePath),
        firmware_path is Some && password_path is None ==> r == Err::<String, FlashError>(
            FlashError::InvalidPasswordPath,
        ),
        firmware_path is Some && password_path is Some ==> (r matches Ok(s) && s@ == script_text(
            port@,
            firmware_path->Some_0@,
            password_path->Some_0@,
        )),
{
    let firmware_str = match firmware_path {
        Some(f) => f,
        None => {
            return Err(FlashError::InvalidFirmwarePath);
        },
    };
    let password_str = match password_path {
        Some(p) => p,
        None => {
            return Err(FlashError::InvalidPasswordPath);
        },
    };
    let mut script = String::new();
    script.append("MODE FRxx UART ");
    script.append(port);
    script.append(" BAUD 9600 PARITY E\nDELAY 1000\nCHANGE_BAUD_RATE 115200\nRX_PASSWORD ");
    script.append(password_str);
    script.append("\nRX_DATA_BLOCK ");
    script.append(firmware_str);
    script.append("\nSET_PC 0x6586\n");
    proof {
        assert(script@ =~= script_text(port@, firmware_str@, password_str@));
    }
    Ok(script)
}

} // verus!
