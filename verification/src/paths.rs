//! Well-known file locations under the application data directory.  The
//! caller resolves the data directory itself and hands it in as text.

use vstd::prelude::*;

verus! {

/// The database file under the application data directory.
pub fn get_database_path(app_data_dir: &str) -> (r: String)
    ensures
        r@ == app_data_dir@ + "/shuati.db"@,
{
    let mut s = String::from_str(app_data_dir);
    s.append("/shuati.db");
    s
}

/// The model directory under the application data directory.
pub fn get_models_dir(app_data_dir: &str) -> (r: String)
    ensures
        r@ == app_data_dir@ + "/models"@,
{
    let mut s = String::from_str(app_data_dir);
    s.append("/models");
    s
}

} // verus!
