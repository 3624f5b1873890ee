use vstd::prelude::*;

use crate::StrError;

verus! {

/// The prologue that every script runs first: the modules and names that the
/// commands of the drawables refer to (`np`, `plt`, `AX3D`,
/// `maybe_create_ax3d`, `get_colormap`). It closes the figures of an earlier
/// run, since the interpreter lives as long as the process.
pub const PYTHON_HEADER: &'static str = "import numpy as np\n\
import matplotlib\n\
matplotlib.use('Agg')\n\
import matplotlib.pyplot as plt\n\
from mpl_toolkits.mplot3d import Axes3D\n\
plt.close('all')\n\
AX3D = None\n\
def maybe_create_ax3d():\n\
    global AX3D\n\
    if AX3D is None:\n\
        AX3D = plt.gcf().add_subplot(111, projection='3d')\n\
def get_colormap(idx):\n\
    cmaps = ['bwr', 'RdBu', 'hsv', 'jet', 'terrain', 'pink', 'Greys']\n\
    return plt.get_cmap(cmaps[idx % len(cmaps)])\n";

/// The message of the error that a script which raised gives.
pub const EXECUTION_FAILED: &'static str = "failed to execute Python code";

/// Returns the code to run for `commands`: the prologue, then the commands.
pub fn python_code(commands: &str) -> (r: String)
    ensures
        r@ == PYTHON_HEADER@ + commands@,
{
    let mut code = String::from_str(PYTHON_HEADER);
    code.append(commands);
    code
}

/// Returns what one run of a script gives: an error if the script raised,
/// else what it wrote to standard output followed by what it wrote to
/// standard error.
pub fn execution_outcome(raised: bool, stdout: &str, stderr: &str) -> (r: Result<String, StrError>)
    ensures
        raised <==> r is Err,
        r matches Err(e) ==> e@ == EXECUTION_FAILED@,
        r matches Ok(s) ==> s@ == stdout@ + stderr@,
{
    if raised {
        return Err(EXECUTION_FAILED);
    }
    let mut out = String::from_str(stdout);
    out.append(stderr);
    Ok(out)
}

} // verus!
