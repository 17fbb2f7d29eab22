use vstd::prelude::*;
use keygen_rs::license::License as OutsideLicense;
use keygen_rs::license::SchemeCode as OutsideSchemeCode;
use keygen_rs::license_file::LicenseFile as OutsideLicenseFile;
use keygen_rs::license_file::LicenseFileDataset as OutsideLicenseFileDataset;
use keygen_rs::machine::Machine as OutsideMachine;
use keygen_rs::machine_file::MachineFile as OutsideMachineFile;
use keygen_rs::machine_file::MachineFileDataset as OutsideMachineFileDataset;

verus! {

// Values of outside crates that this library carries without reading them:
// the records of the remote-API collaborator (read only through the
// converting wrappers beside the library's own records) and the payloads of
// its failures.

#[verifier::external_type_specification]
#[verifier::external_body]
pub struct ExJsonValue(serde_json::Value);

#[verifier::external_type_specification]
#[verifier::external_body]
pub struct ExJsonError(serde_json::Error);

#[verifier::external_type_specification]
#[verifier::external_body]
pub struct ExHttpError(reqwest::Error);

#[verifier::external_type_specification]
#[verifier::external_body]
pub struct ExHeaderError(reqwest::header::InvalidHeaderValue);

#[verifier::external_type_specification]
#[verifier::external_body]
pub struct ExUrlError(url::ParseError);

#[verifier::external_type_specification]
#[verifier::external_body]
pub struct ExUrlEncodeError(serde_urlencoded::ser::Error);

#[verifier::external_type_specification]
#[verifier::external_body]
pub struct ExLicense(OutsideLicense);

#[verifier::external_type_specification]
#[verifier::external_body]
pub struct ExMachine(OutsideMachine);

#[verifier::external_type_specification]
#[verifier::external_body]
pub struct ExLicenseFile(OutsideLicenseFile);

#[verifier::external_type_specification]
#[verifier::external_body]
pub struct ExLicenseFileDataset(OutsideLicenseFileDataset);

#[verifier::external_type_specification]
#[verifier::external_body]
pub struct ExMachineFile(OutsideMachineFile);

#[verifier::external_type_specification]
#[verifier::external_body]
pub struct ExMachineFileDataset(OutsideMachineFileDataset);

// Outside enums whose variants this library reads. Verus checks these
// declarations against the enums themselves; the failure enum is read to map
// each of its variants to this library's own taxonomy.

#[verifier::external_type_specification]
pub struct ExSchemeCode(OutsideSchemeCode);

#[verifier::external_type_specification]
pub struct ExError(keygen_rs::errors::Error);

} // verus!
