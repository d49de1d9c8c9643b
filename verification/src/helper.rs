//! Where the certificate helper keeps its files.

use vstd::prelude::*;

verus! {

/// The file of the private key of the certification authority.
pub fn ca_key_filename(output_dir: &str) -> (r: String)
    ensures
        r@ == output_dir@ + "/ca.priv-key.pem"@,
{
    let mut name = String::from_str(output_dir);
    name.append("/ca.priv-key.pem");
    name
}

/// The file of the certificate of the certification authority.
pub fn ca_cert_filename(output_dir: &str) -> (r: String)
    ensures
        r@ == output_dir@ + "/ca.pem"@,
{
    let mut name = String::from_str(output_dir);
    name.append("/ca.pem");
    name
}

/// The file of the private key of a server or client.
pub fn key_filename(output_dir: &str, name: &str) -> (r: String)
    ensures
        r@ == output_dir@ + "/"@ + name@ + ".priv-key.pem"@,
{
    let mut file = String::from_str(output_dir);
    file.append("/");
    file.append(name);
    file.append(".priv-key.pem");
    file
}

/// The file of the certificate of a server or client.
pub fn cert_filename(output_dir: &str, name: &str) -> (r: String)
    ensures
        r@ == output_dir@ + "/"@ + name@ + ".pem"@,
{
    let mut file = String::from_str(output_dir);
    file.append("/");
    file.append(name);
    file.append(".pem");
    file
}

} // verus!
