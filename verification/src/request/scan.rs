//! Media library scanning requests.
use vstd::prelude::*;

use crate::codec::{fields_view, schema_view, FieldSpec, FieldSpecView, FieldValue, FieldValueView};
use crate::common::Version;
use crate::request::SubsonicRequest;
use crate::roundtrip::lemma_plain_body_schema;

use crate::codec::{fields_pairs, lemma_fields_pairs_take};
use crate::query::PairView;
use crate::request::values::{};
verus! {

/// Returns the current status for media library scanning. Takes no extra parameters.
///
/// For more information, see <http://www.subsonic.org/pages/api.jsp#getScanStatus>
#[derive(Debug, Clone, PartialEq)]
pub struct GetScanStatus;

impl SubsonicRequest for GetScanStatus {
    open spec fn spec_schema() -> Seq<FieldSpecView> {
        Seq::<FieldSpecView>::empty()
    }

    open spec fn spec_fields(&self) -> Seq<FieldValueView> {
        Seq::<FieldValueView>::empty()
    }

    open spec fn spec_schema_ok() -> bool {
        true
    }

    open spec fn spec_is_body() -> bool {
        true
    }

    open spec fn spec_path() -> Seq<char> {
        "/rest/getScanStatus"@
    }

    open spec fn spec_since() -> Version {
        Version { major: 1, minor: 15, patch: 0 }
    }

    fn path() -> (res: &'static str) {
        "/rest/getScanStatus"
    }

    fn since() -> (res: Version) {
        Version::new(1, 15, 0)
    }

    fn schema() -> (res: Vec<FieldSpec>) {
        let mut out: Vec<FieldSpec> = Vec::new();
        proof {
            assert(schema_view(out@) =~= Self::spec_schema());
        }
        out
    }

    fn fields(&self) -> (res: Vec<FieldValue>) {
        let mut out: Vec<FieldValue> = Vec::new();
        proof {
            assert(fields_view(out@) =~= self.spec_fields());
        }
        out
    }

    fn from_fields(fields: Vec<FieldValue>) -> (res: Self) {
        proof {
            assert(fields_view(fields@) =~= Seq::<FieldValueView>::empty());
        }
        GetScanStatus
    }

    proof fn lemma_fields_fit(r: &Self) {
    }

    proof fn lemma_schema_valid() {
        lemma_plain_body_schema(Self::spec_schema());
    }
}

/// Initiates a rescan of the media libraries. Takes no extra parameters.
///
/// For more information, see <http://www.subsonic.org/pages/api.jsp#startScan>
#[derive(Debug, Clone, PartialEq)]
pub struct StartScan;

impl SubsonicRequest for StartScan {
    open spec fn spec_schema() -> Seq<FieldSpecView> {
        Seq::<FieldSpecView>::empty()
    }

    open spec fn spec_fields(&self) -> Seq<FieldValueView> {
        Seq::<FieldValueView>::empty()
    }

    open spec fn spec_schema_ok() -> bool {
        true
    }

    open spec fn spec_is_body() -> bool {
        true
    }

    open spec fn spec_path() -> Seq<char> {
        "/rest/startScan"@
    }

    open spec fn spec_since() -> Version {
        Version { major: 1, minor: 15, patch: 0 }
    }

    fn path() -> (res: &'static str) {
        "/rest/startScan"
    }

    fn since() -> (res: Version) {
        Version::new(1, 15, 0)
    }

    fn schema() -> (res: Vec<FieldSpec>) {
        let mut out: Vec<FieldSpec> = Vec::new();
        proof {
            assert(schema_view(out@) =~= Self::spec_schema());
        }
        out
    }

    fn fields(&self) -> (res: Vec<FieldValue>) {
        let mut out: Vec<FieldValue> = Vec::new();
        proof {
            assert(fields_view(out@) =~= self.spec_fields());
        }
        out
    }

    fn from_fields(fields: Vec<FieldValue>) -> (res: Self) {
        proof {
            assert(fields_view(fields@) =~= Seq::<FieldValueView>::empty());
        }
        StartScan
    }

    proof fn lemma_fields_fit(r: &Self) {
    }

    proof fn lemma_schema_valid() {
        lemma_plain_body_schema(Self::spec_schema());
    }
}

} // verus!
