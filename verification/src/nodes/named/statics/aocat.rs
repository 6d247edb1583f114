//! The [AO-Cat](https://doi.org/10.5281/zenodo.7818375) ontology.
//!
//! Every term converts into a `Subject`, `Predicate`, `Object` or
//! `NamedNode` for its full IRI, under `https://www.ariadne-infrastructure.eu/resource/ao/cat/1.1/`.
use vstd::prelude::*;
use vstd::std_specs::convert::FromSpecImpl;

use crate::nodes::{NamedNode, Object, Predicate, Subject};

verus! {

/// The properties of this vocabulary.
#[derive(Debug, PartialEq, Eq, Clone, Copy)]
pub enum Property {
    HasName,
    HasPlaceName,
    HasDataType,
    HasCountry,
    HasSpatialCoverage,
    HasIdentifier,
    HasType,
    IsTypeOf,
    HasTitle,
    HasDescription,
    WasIssued,
    WasModified,
    HasPart,
    IsPartOf,
    HasPublisher,
    IsPublisherOf,
    HasContributor,
    IsContributorOf,
    HasCreator,
    IsCreatorOf,
    HasOwner,
    IsOwnerOf,
    HasResponsible,
    IsResponsibleOf,
    HasVisualComponent,
    IsVisualComponentOf,
    HasPrimaryVisualComponent,
    IsPrimaryVisualComponentOf,
    IsRenderedBy,
    Renders,
    HasOriginalId,
    RefersTo,
    IsReferencedBy,
    IsAbout,
    IsSubjectOf,
    HasAriadneSubject,
    IsAriadneSubjectOf,
    HasNativeSubject,
    IsNativeSubjectOf,
    HasDerivedSubject,
    IsDerivedSubjectOf,
    HasLanguage,
    IsLanguageOf,
    WasCreatedOn,
    HasLandingPage,
    IsLandingPageOf,
    HasAccessPolicy,
    HasAccessRights,
    IsAccessPolicyOf,
}

impl Property {
    /// The full IRI of this term.
    pub open spec fn spec_iri(self) -> Seq<char> {
        match self {
            Property::HasName => "https://www.ariadne-infrastructure.eu/resource/ao/cat/1.1/has_name"@,
            Property::HasPlaceName => "https://www.ariadne-infrastructure.eu/resource/ao/cat/1.1/has_place_name"@,
            Property::HasDataType => "https://www.ariadne-infrastructure.eu/resource/ao/cat/1.1/has_data_type"@,
            Property::HasCountry => "https://www.ariadne-infrastructure.eu/resource/ao/cat/1.1/has_country"@,
            Property::HasSpatialCoverage => "https://www.ariadne-infrastructure.eu/resource/ao/cat/1.1/has_spatial_coverage"@,
            Property::HasIdentifier => "https://www.ariadne-infrastructure.eu/resource/ao/cat/1.1/has_identifier"@,
            Property::HasType => "https://www.ariadne-infrastructure.eu/resource/ao/cat/1.1/has_type"@,
            Property::IsTypeOf => "https://www.ariadne-infrastructure.eu/resource/ao/cat/1.1/is_type_of"@,
            Property::HasTitle => "https://www.ariadne-infrastructure.eu/resource/ao/cat/1.1/has_title"@,
            Property::HasDescription => "https://www.ariadne-infrastructure.eu/resource/ao/cat/1.1/has_description"@,
            Property::WasIssued => "https://www.ariadne-infrastructure.eu/resource/ao/cat/1.1/was_issued"@,
            Property::WasModified => "https://www.ariadne-infrastructure.eu/resource/ao/cat/1.1/was_modified"@,
            Property::HasPart => "https://www.ariadne-infrastructure.eu/resource/ao/cat/1.1/has_part"@,
            Property::IsPartOf => "https://www.ariadne-infrastructure.eu/resource/ao/cat/1.1/is_part_of"@,
            Property::HasPublisher => "https://www.ariadne-infrastructure.eu/resource/ao/cat/1.1/has_publisher"@,
            Property::IsPublisherOf => "https://www.ariadne-infrastructure.eu/resource/ao/cat/1.1/is_publisher_of"@,
            Property::HasContributor => "https://www.ariadne-infrastructure.eu/resource/ao/cat/1.1/has_contributor"@,
            Property::IsContributorOf => "https://www.ariadne-infrastructure.eu/resource/ao/cat/1.1/is_contributor_of"@,
            Property::HasCreator => "https://www.ariadne-infrastructure.eu/resource/ao/cat/1.1/has_creator"@,
            Property::IsCreatorOf => "https://www.ariadne-infrastructure.eu/resource/ao/cat/1.1/is_creator_of"@,
            Property::HasOwner => "https://www.ariadne-infrastructure.eu/resource/ao/cat/1.1/has_owner"@,
            Property::IsOwnerOf => "https://www.ariadne-infrastructure.eu/resource/ao/cat/1.1/is_owner_of"@,
            Property::HasResponsible => "https://www.ariadne-infrastructure.eu/resource/ao/cat/1.1/has_responsible"@,
            Property::IsResponsibleOf => "https://www.ariadne-infrastructure.eu/resource/ao/cat/1.1/is_responsible_of"@,
            Property::HasVisualComponent => "https://www.ariadne-infrastructure.eu/resource/ao/cat/1.1/has_visual_component"@,
            Property::IsVisualComponentOf => "https://www.ariadne-infrastructure.eu/resource/ao/cat/1.1/is_visual_component_of"@,
            Property::HasPrimaryVisualComponent => "https://www.ariadne-infrastructure.eu/resource/ao/cat/1.1/has_primary_visual_component"@,
            Property::IsPrimaryVisualComponentOf => "https://www.ariadne-infrastructure.eu/resource/ao/cat/1.1/is_primary_visual_component_of"@,
            Property::IsRenderedBy => "https://www.ariadne-infrastructure.eu/resource/ao/cat/1.1/is_rendered_by"@,
            Property::Renders => "https://www.ariadne-infrastructure.eu/resource/ao/cat/1.1/renders"@,
            Property::HasOriginalId => "https://www.ariadne-infrastructure.eu/resource/ao/cat/1.1/has_original_id"@,
            Property::RefersTo => "https://www.ariadne-infrastructure.eu/resource/ao/cat/1.1/refers_to"@,
            Property::IsReferencedBy => "https://www.ariadne-infrastructure.eu/resource/ao/cat/1.1/is_referenced_by"@,
            Property::IsAbout => "https://www.ariadne-infrastructure.eu/resource/ao/cat/1.1/is_about"@,
            Property::IsSubjectOf => "https://www.ariadne-infrastructure.eu/resource/ao/cat/1.1/is_subject_of"@,
            Property::HasAriadneSubject => "https://www.ariadne-infrastructure.eu/resource/ao/cat/1.1/has_ARIADNE_subject"@,
            Property::IsAriadneSubjectOf => "https://www.ariadne-infrastructure.eu/resource/ao/cat/1.1/is_ARIADNE_subject_of"@,
            Property::HasNativeSubject => "https://www.ariadne-infrastructure.eu/resource/ao/cat/1.1/has_native_subject"@,
            Property::IsNativeSubjectOf => "https://www.ariadne-infrastructure.eu/resource/ao/cat/1.1/is_native_subject_of"@,
            Property::HasDerivedSubject => "https://www.ariadne-infrastructure.eu/resource/ao/cat/1.1/has_derived_subject"@,
            Property::IsDerivedSubjectOf => "https://www.ariadne-infrastructure.eu/resource/ao/cat/1.1/is_derived_subject_of"@,
            Property::HasLanguage => "https://www.ariadne-infrastructure.eu/resource/ao/cat/1.1/has_language"@,
            Property::IsLanguageOf => "https://www.ariadne-infrastructure.eu/resource/ao/cat/1.1/is_language_of"@,
            Property::WasCreatedOn => "https://www.ariadne-infrastructure.eu/resource/ao/cat/1.1/was_created_on"@,
            Property::HasLandingPage => "https://www.ariadne-infrastructure.eu/resource/ao/cat/1.1/has_landing_page"@,
            Property::IsLandingPageOf => "https://www.ariadne-infrastructure.eu/resource/ao/cat/1.1/is_landing_page_of"@,
            Property::HasAccessPolicy => "https://www.ariadne-infrastructure.eu/resource/ao/cat/1.1/has_access_policy"@,
            Property::HasAccessRights => "https://www.ariadne-infrastructure.eu/resource/ao/cat/1.1/has_access_rights"@,
            Property::IsAccessPolicyOf => "https://www.ariadne-infrastructure.eu/resource/ao/cat/1.1/is_access_policy_of"@,
        }
    }

    /// The full IRI of this term.
    pub fn iri(self) -> (s: &'static str)
        ensures
            s@ == self.spec_iri(),
    {
        match self {
            Property::HasName => "https://www.ariadne-infrastructure.eu/resource/ao/cat/1.1/has_name",
            Property::HasPlaceName => "https://www.ariadne-infrastructure.eu/resource/ao/cat/1.1/has_place_name",
            Property::HasDataType => "https://www.ariadne-infrastructure.eu/resource/ao/cat/1.1/has_data_type",
            Property::HasCountry => "https://www.ariadne-infrastructure.eu/resource/ao/cat/1.1/has_country",
            Property::HasSpatialCoverage => "https://www.ariadne-infrastructure.eu/resource/ao/cat/1.1/has_spatial_coverage",
            Property::HasIdentifier => "https://www.ariadne-infrastructure.eu/resource/ao/cat/1.1/has_identifier",
            Property::HasType => "https://www.ariadne-infrastructure.eu/resource/ao/cat/1.1/has_type",
            Property::IsTypeOf => "https://www.ariadne-infrastructure.eu/resource/ao/cat/1.1/is_type_of",
            Property::HasTitle => "https://www.ariadne-infrastructure.eu/resource/ao/cat/1.1/has_title",
            Property::HasDescription => "https://www.ariadne-infrastructure.eu/resource/ao/cat/1.1/has_description",
            Property::WasIssued => "https://www.ariadne-infrastructure.eu/resource/ao/cat/1.1/was_issued",
            Property::WasModified => "https://www.ariadne-infrastructure.eu/resource/ao/cat/1.1/was_modified",
            Property::HasPart => "https://www.ariadne-infrastructure.eu/resource/ao/cat/1.1/has_part",
            Property::IsPartOf => "https://www.ariadne-infrastructure.eu/resource/ao/cat/1.1/is_part_of",
            Property::HasPublisher => "https://www.ariadne-infrastructure.eu/resource/ao/cat/1.1/has_publisher",
            Property::IsPublisherOf => "https://www.ariadne-infrastructure.eu/resource/ao/cat/1.1/is_publisher_of",
            Property::HasContributor => "https://www.ariadne-infrastructure.eu/resource/ao/cat/1.1/has_contributor",
            Property::IsContributorOf => "https://www.ariadne-infrastructure.eu/resource/ao/cat/1.1/is_contributor_of",
            Property::HasCreator => "https://www.ariadne-infrastructure.eu/resource/ao/cat/1.1/has_creator",
            Property::IsCreatorOf => "https://www.ariadne-infrastructure.eu/resource/ao/cat/1.1/is_creator_of",
            Property::HasOwner => "https://www.ariadne-infrastructure.eu/resource/ao/cat/1.1/has_owner",
            Property::IsOwnerOf => "https://www.ariadne-infrastructure.eu/resource/ao/cat/1.1/is_owner_of",
            Property::HasResponsible => "https://www.ariadne-infrastructure.eu/resource/ao/cat/1.1/has_responsible",
            Property::IsResponsibleOf => "https://www.ariadne-infrastructure.eu/resource/ao/cat/1.1/is_responsible_of",
            Property::HasVisualComponent => "https://www.ariadne-infrastructure.eu/resource/ao/cat/1.1/has_visual_component",
            Property::IsVisualComponentOf => "https://www.ariadne-infrastructure.eu/resource/ao/cat/1.1/is_visual_component_of",
            Property::HasPrimaryVisualComponent => "https://www.ariadne-infrastructure.eu/resource/ao/cat/1.1/has_primary_visual_component",
            Property::IsPrimaryVisualComponentOf => "https://www.ariadne-infrastructure.eu/resource/ao/cat/1.1/is_primary_visual_component_of",
            Property::IsRenderedBy => "https://www.ariadne-infrastructure.eu/resource/ao/cat/1.1/is_rendered_by",
            Property::Renders => "https://www.ariadne-infrastructure.eu/resource/ao/cat/1.1/renders",
            Property::HasOriginalId => "https://www.ariadne-infrastructure.eu/resource/ao/cat/1.1/has_original_id",
            Property::RefersTo => "https://www.ariadne-infrastructure.eu/resource/ao/cat/1.1/refers_to",
            Property::IsReferencedBy => "https://www.ariadne-infrastructure.eu/resource/ao/cat/1.1/is_referenced_by",
            Property::IsAbout => "https://www.ariadne-infrastructure.eu/resource/ao/cat/1.1/is_about",
            Property::IsSubjectOf => "https://www.ariadne-infrastructure.eu/resource/ao/cat/1.1/is_subject_of",
            Property::HasAriadneSubject => "https://www.ariadne-infrastructure.eu/resource/ao/cat/1.1/has_ARIADNE_subject",
            Property::IsAriadneSubjectOf => "https://www.ariadne-infrastructure.eu/resource/ao/cat/1.1/is_ARIADNE_subject_of",
            Property::HasNativeSubject => "https://www.ariadne-infrastructure.eu/resource/ao/cat/1.1/has_native_subject",
            Property::IsNativeSubjectOf => "https://www.ariadne-infrastructure.eu/resource/ao/cat/1.1/is_native_subject_of",
            Property::HasDerivedSubject => "https://www.ariadne-infrastructure.eu/resource/ao/cat/1.1/has_derived_subject",
            Property::IsDerivedSubjectOf => "https://www.ariadne-infrastructure.eu/resource/ao/cat/1.1/is_derived_subject_of",
            Property::HasLanguage => "https://www.ariadne-infrastructure.eu/resource/ao/cat/1.1/has_language",
            Property::IsLanguageOf => "https://www.ariadne-infrastructure.eu/resource/ao/cat/1.1/is_language_of",
            Property::WasCreatedOn => "https://www.ariadne-infrastructure.eu/resource/ao/cat/1.1/was_created_on",
            Property::HasLandingPage => "https://www.ariadne-infrastructure.eu/resource/ao/cat/1.1/has_landing_page",
            Property::IsLandingPageOf => "https://www.ariadne-infrastructure.eu/resource/ao/cat/1.1/is_landing_page_of",
            Property::HasAccessPolicy => "https://www.ariadne-infrastructure.eu/resource/ao/cat/1.1/has_access_policy",
            Property::HasAccessRights => "https://www.ariadne-infrastructure.eu/resource/ao/cat/1.1/has_access_rights",
            Property::IsAccessPolicyOf => "https://www.ariadne-infrastructure.eu/resource/ao/cat/1.1/is_access_policy_of",
        }
    }
}

impl From<Property> for Subject {
    fn from(value: Property) -> (r: Subject)
        ensures
            r matches Subject::Named(n) && n@ == value.spec_iri(),
    {
        Subject::new_const_named(value.iri())
    }
}

impl FromSpecImpl<Property> for Subject {
    /// The node holds a freshly built `String`; `from` states its IRI.
    open spec fn obeys_from_spec() -> bool {
        false
    }

    open spec fn from_spec(v: Property) -> Subject {
        arbitrary()
    }
}

impl From<Property> for Predicate {
    fn from(value: Property) -> (r: Predicate)
        ensures
            r.0@ == value.spec_iri(),
    {
        Predicate::new_const(value.iri())
    }
}

impl FromSpecImpl<Property> for Predicate {
    /// The node holds a freshly built `String`; `from` states its IRI.
    open spec fn obeys_from_spec() -> bool {
        false
    }

    open spec fn from_spec(v: Property) -> Predicate {
        arbitrary()
    }
}

impl From<Property> for Object {
    fn from(value: Property) -> (r: Object)
        ensures
            r matches Object::Named(n) && n@ == value.spec_iri(),
    {
        Object::new_const_named(value.iri())
    }
}

impl FromSpecImpl<Property> for Object {
    /// The node holds a freshly built `String`; `from` states its IRI.
    open spec fn obeys_from_spec() -> bool {
        false
    }

    open spec fn from_spec(v: Property) -> Object {
        arbitrary()
    }
}

impl From<Property> for NamedNode {
    fn from(value: Property) -> (r: NamedNode)
        ensures
            r@ == value.spec_iri(),
    {
        NamedNode::new_const(value.iri())
    }
}

impl FromSpecImpl<Property> for NamedNode {
    /// The node holds a freshly built `String`; `from` states its IRI.
    open spec fn obeys_from_spec() -> bool {
        false
    }

    open spec fn from_spec(v: Property) -> NamedNode {
        arbitrary()
    }
}

/// The classes of this vocabulary.
#[derive(Debug, PartialEq, Eq, Clone, Copy)]
pub enum Class {
    AoActivity,
    AoAgent,
    AoCollection,
    AoDigitalImage,
    AoDigitalMedia,
    AoConcept,
    AoDataResource,
    AoDocument,
    AoEntity,
    AoEvent,
    AoGroup,
    AoIndividualDataResource,
    AoObject,
    AoPerson,
    AoResource,
    AoService,
    AoSpatialRegion,
    AoSpatialRegionBBox,
    AoSpatialRegionPoint,
    AoSpatialRegionPolygon,
    AoSpatialRegionStdName,
    AoTemporalRegion,
}

impl Class {
    /// The full IRI of this term.
    pub open spec fn spec_iri(self) -> Seq<char> {
        match self {
            Class::AoActivity => "https://www.ariadne-infrastructure.eu/resource/ao/cat/1.1/AO_Activity"@,
            Class::AoAgent => "https://www.ariadne-infrastructure.eu/resource/ao/cat/1.1/AO_Agent"@,
            Class::AoCollection => "https://www.ariadne-infrastructure.eu/resource/ao/cat/1.1/AO_Collection"@,
            Class::AoDigitalImage => "https://www.ariadne-infrastructure.eu/resource/ao/cat/1.1/AO_Digital_Image"@,
            Class::AoDigitalMedia => "https://www.ariadne-infrastructure.eu/resource/ao/cat/1.1/AO_Digital_Media"@,
            Class::AoConcept => "https://www.ariadne-infrastructure.eu/resource/ao/cat/1.1/AO_Dimension"@,
            Class::AoDataResource => "https://www.ariadne-infrastructure.eu/resource/ao/cat/1.1/AO_Data_Resource"@,
            Class::AoDocument => "https://www.ariadne-infrastructure.eu/resource/ao/cat/1.1/AO_Document"@,
            Class::AoEntity => "https://www.ariadne-infrastructure.eu/resource/ao/cat/1.1/AO_Entity"@,
            Class::AoEvent => "https://www.ariadne-infrastructure.eu/resource/ao/cat/1.1/AO_Event"@,
            Class::AoGroup => "https://www.ariadne-infrastructure.eu/resource/ao/cat/1.1/AO_Group"@,
            Class::AoIndividualDataResource => "https://www.ariadne-infrastructure.eu/resource/ao/cat/1.1/AO_Individual_Data_Resource"@,
            Class::AoObject => "https://www.ariadne-infrastructure.eu/resource/ao/cat/1.1/AO_Object"@,
            Class::AoPerson => "https://www.ariadne-infrastructure.eu/resource/ao/cat/1.1/AO_Person"@,
            Class::AoResource => "https://www.ariadne-infrastructure.eu/resource/ao/cat/1.1/AO_Resource"@,
            Class::AoService => "https://www.ariadne-infrastructure.eu/resource/ao/cat/1.1/AO_Service"@,
            Class::AoSpatialRegion => "https://www.ariadne-infrastructure.eu/resource/ao/cat/1.1/AO_Spatial_Region"@,
            Class::AoSpatialRegionBBox => "https://www.ariadne-infrastructure.eu/resource/ao/cat/1.1/AO_Spatial_Region_BBox"@,
            Class::AoSpatialRegionPoint => "https://www.ariadne-infrastructure.eu/resource/ao/cat/1.1/AO_Spatial_Region_Point"@,
            Class::AoSpatialRegionPolygon => "https://www.ariadne-infrastructure.eu/resource/ao/cat/1.1/AO_Spatial_Region_Polygon"@,
            Class::AoSpatialRegionStdName => "https://www.ariadne-infrastructure.eu/resource/ao/cat/1.1/AO_Spatial_Region_StdName"@,
            Class::AoTemporalRegion => "https://www.ariadne-infrastructure.eu/resource/ao/cat/1.1/AO_Temporal_Region"@,
        }
    }

    /// The full IRI of this term.
    pub fn iri(self) -> (s: &'static str)
        ensures
            s@ == self.spec_iri(),
    {
        match self {
            Class::AoActivity => "https://www.ariadne-infrastructure.eu/resource/ao/cat/1.1/AO_Activity",
            Class::AoAgent => "https://www.ariadne-infrastructure.eu/resource/ao/cat/1.1/AO_Agent",
            Class::AoCollection => "https://www.ariadne-infrastructure.eu/resource/ao/cat/1.1/AO_Collection",
            Class::AoDigitalImage => "https://www.ariadne-infrastructure.eu/resource/ao/cat/1.1/AO_Digital_Image",
            Class::AoDigitalMedia => "https://www.ariadne-infrastructure.eu/resource/ao/cat/1.1/AO_Digital_Media",
            Class::AoConcept => "https://www.ariadne-infrastructure.eu/resource/ao/cat/1.1/AO_Dimension",
            Class::AoDataResource => "https://www.ariadne-infrastructure.eu/resource/ao/cat/1.1/AO_Data_Resource",
            Class::AoDocument => "https://www.ariadne-infrastructure.eu/resource/ao/cat/1.1/AO_Document",
            Class::AoEntity => "https://www.ariadne-infrastructure.eu/resource/ao/cat/1.1/AO_Entity",
            Class::AoEvent => "https://www.ariadne-infrastructure.eu/resource/ao/cat/1.1/AO_Event",
            Class::AoGroup => "https://www.ariadne-infrastructure.eu/resource/ao/cat/1.1/AO_Group",
            Class::AoIndividualDataResource => "https://www.ariadne-infrastructure.eu/resource/ao/cat/1.1/AO_Individual_Data_Resource",
            Class::AoObject => "https://www.ariadne-infrastructure.eu/resource/ao/cat/1.1/AO_Object",
            Class::AoPerson => "https://www.ariadne-infrastructure.eu/resource/ao/cat/1.1/AO_Person",
            Class::AoResource => "https://www.ariadne-infrastructure.eu/resource/ao/cat/1.1/AO_Resource",
            Class::AoService => "https://www.ariadne-infrastructure.eu/resource/ao/cat/1.1/AO_Service",
            Class::AoSpatialRegion => "https://www.ariadne-infrastructure.eu/resource/ao/cat/1.1/AO_Spatial_Region",
            Class::AoSpatialRegionBBox => "https://www.ariadne-infrastructure.eu/resource/ao/cat/1.1/AO_Spatial_Region_BBox",
            Class::AoSpatialRegionPoint => "https://www.ariadne-infrastructure.eu/resource/ao/cat/1.1/AO_Spatial_Region_Point",
            Class::AoSpatialRegionPolygon => "https://www.ariadne-infrastructure.eu/resource/ao/cat/1.1/AO_Spatial_Region_Polygon",
            Class::AoSpatialRegionStdName => "https://www.ariadne-infrastructure.eu/resource/ao/cat/1.1/AO_Spatial_Region_StdName",
            Class::AoTemporalRegion => "https://www.ariadne-infrastructure.eu/resource/ao/cat/1.1/AO_Temporal_Region",
        }
    }
}

impl From<Class> for Subject {
    fn from(value: Class) -> (r: Subject)
        ensures
            r matches Subject::Named(n) && n@ == value.spec_iri(),
    {
        Subject::new_const_named(value.iri())
    }
}

impl FromSpecImpl<Class> for Subject {
    /// The node holds a freshly built `String`; `from` states its IRI.
    open spec fn obeys_from_spec() -> bool {
        false
    }

    open spec fn from_spec(v: Class) -> Subject {
        arbitrary()
    }
}

impl From<Class> for Predicate {
    fn from(value: Class) -> (r: Predicate)
        ensures
            r.0@ == value.spec_iri(),
    {
        Predicate::new_const(value.iri())
    }
}

impl FromSpecImpl<Class> for Predicate {
    /// The node holds a freshly built `String`; `from` states its IRI.
    open spec fn obeys_from_spec() -> bool {
        false
    }

    open spec fn from_spec(v: Class) -> Predicate {
        arbitrary()
    }
}

impl From<Class> for Object {
    fn from(value: Class) -> (r: Object)
        ensures
            r matches Object::Named(n) && n@ == value.spec_iri(),
    {
        Object::new_const_named(value.iri())
    }
}

impl FromSpecImpl<Class> for Object {
    /// The node holds a freshly built `String`; `from` states its IRI.
    open spec fn obeys_from_spec() -> bool {
        false
    }

    open spec fn from_spec(v: Class) -> Object {
        arbitrary()
    }
}

impl From<Class> for NamedNode {
    fn from(value: Class) -> (r: NamedNode)
        ensures
            r@ == value.spec_iri(),
    {
        NamedNode::new_const(value.iri())
    }
}

impl FromSpecImpl<Class> for NamedNode {
    /// The node holds a freshly built `String`; `from` states its IRI.
    open spec fn obeys_from_spec() -> bool {
        false
    }

    open spec fn from_spec(v: Class) -> NamedNode {
        arbitrary()
    }
}

/// The base IRI of this vocabulary, which every term's IRI extends.
pub open spec fn vocabulary_base() -> Seq<char> {
    "https://www.ariadne-infrastructure.eu/resource/ao/cat/1.1/"@
}

/// Every term of `Property` has an IRI made of this vocabulary's base IRI
/// followed by a non-empty local name, and two distinct properties never
/// share an IRI.
pub proof fn lemma_property_iris(a: Property, b: Property)
    ensures
        a.spec_iri().len() > vocabulary_base().len(),
        a.spec_iri().subrange(0, vocabulary_base().len() as int) == vocabulary_base(),
        a != b ==> a.spec_iri() != b.spec_iri(),
{
    reveal_strlit("https://www.ariadne-infrastructure.eu/resource/ao/cat/1.1/");
    reveal_strlit("https://www.ariadne-infrastructure.eu/resource/ao/cat/1.1/has_name");
    reveal_strlit("https://www.ariadne-infrastructure.eu/resource/ao/cat/1.1/has_place_name");
    reveal_strlit("https://www.ariadne-infrastructure.eu/resource/ao/cat/1.1/has_data_type");
    reveal_strlit("https://www.ariadne-infrastructure.eu/resource/ao/cat/1.1/has_country");
    reveal_strlit("https://www.ariadne-infrastructure.eu/resource/ao/cat/1.1/has_spatial_coverage");
    reveal_strlit("https://www.ariadne-infrastructure.eu/resource/ao/cat/1.1/has_identifier");
    reveal_strlit("https://www.ariadne-infrastructure.eu/resource/ao/cat/1.1/has_type");
    reveal_strlit("https://www.ariadne-infrastructure.eu/resource/ao/cat/1.1/is_type_of");
    reveal_strlit("https://www.ariadne-infrastructure.eu/resource/ao/cat/1.1/has_title");
    reveal_strlit("https://www.ariadne-infrastructure.eu/resource/ao/cat/1.1/has_description");
    reveal_strlit("https://www.ariadne-infrastructure.eu/resource/ao/cat/1.1/was_issued");
    reveal_strlit("https://www.ariadne-infrastructure.eu/resource/ao/cat/1.1/was_modified");
    reveal_strlit("https://www.ariadne-infrastructure.eu/resource/ao/cat/1.1/has_part");
    reveal_strlit("https://www.ariadne-infrastructure.eu/resource/ao/cat/1.1/is_part_of");
    reveal_strlit("https://www.ariadne-infrastructure.eu/resource/ao/cat/1.1/has_publisher");
    reveal_strlit("https://www.ariadne-infrastructure.eu/resource/ao/cat/1.1/is_publisher_of");
    reveal_strlit("https://www.ariadne-infrastructure.eu/resource/ao/cat/1.1/has_contributor");
    reveal_strlit("https://www.ariadne-infrastructure.eu/resource/ao/cat/1.1/is_contributor_of");
    reveal_strlit("https://www.ariadne-infrastructure.eu/resource/ao/cat/1.1/has_creator");
    reveal_strlit("https://www.ariadne-infrastructure.eu/resource/ao/cat/1.1/is_creator_of");
    reveal_strlit("https://www.ariadne-infrastructure.eu/resource/ao/cat/1.1/has_owner");
    reveal_strlit("https://www.ariadne-infrastructure.eu/resource/ao/cat/1.1/is_owner_of");
    reveal_strlit("https://www.ariadne-infrastructure.eu/resource/ao/cat/1.1/has_responsible");
    reveal_strlit("https://www.ariadne-infrastructure.eu/resource/ao/cat/1.1/is_responsible_of");
    reveal_strlit("https://www.ariadne-infrastructure.eu/resource/ao/cat/1.1/has_visual_component");
    reveal_strlit("https://www.ariadne-infrastructure.eu/resource/ao/cat/1.1/is_visual_component_of");
    reveal_strlit("https://www.ariadne-infrastructure.eu/resource/ao/cat/1.1/has_primary_visual_component");
    reveal_strlit("https://www.ariadne-infrastructure.eu/resource/ao/cat/1.1/is_primary_visual_component_of");
    reveal_strlit("https://www.ariadne-infrastructure.eu/resource/ao/cat/1.1/is_rendered_by");
    reveal_strlit("https://www.ariadne-infrastructure.eu/resource/ao/cat/1.1/renders");
    reveal_strlit("https://www.ariadne-infrastructure.eu/resource/ao/cat/1.1/has_original_id");
    reveal_strlit("https://www.ariadne-infrastructure.eu/resource/ao/cat/1.1/refers_to");
    reveal_strlit("https://www.ariadne-infrastructure.eu/resource/ao/cat/1.1/is_referenced_by");
    reveal_strlit("https://www.ariadne-infrastructure.eu/resource/ao/cat/1.1/is_about");
    reveal_strlit("https://www.ariadne-infrastructure.eu/resource/ao/cat/1.1/is_subject_of");
    reveal_strlit("https://www.ariadne-infrastructure.eu/resource/ao/cat/1.1/has_ARIADNE_subject");
    reveal_strlit("https://www.ariadne-infrastructure.eu/resource/ao/cat/1.1/is_ARIADNE_subject_of");
    reveal_strlit("https://www.ariadne-infrastructure.eu/resource/ao/cat/1.1/has_native_subject");
    reveal_strlit("https://www.ariadne-infrastructure.eu/resource/ao/cat/1.1/is_native_subject_of");
    reveal_strlit("https://www.ariadne-infrastructure.eu/resource/ao/cat/1.1/has_derived_subject");
    reveal_strlit("https://www.ariadne-infrastructure.eu/resource/ao/cat/1.1/is_derived_subject_of");
    reveal_strlit("https://www.ariadne-infrastructure.eu/resource/ao/cat/1.1/has_language");
    reveal_strlit("https://www.ariadne-infrastructure.eu/resource/ao/cat/1.1/is_language_of");
    reveal_strlit("https://www.ariadne-infrastructure.eu/resource/ao/cat/1.1/was_created_on");
    reveal_strlit("https://www.ariadne-infrastructure.eu/resource/ao/cat/1.1/has_landing_page");
    reveal_strlit("https://www.ariadne-infrastructure.eu/resource/ao/cat/1.1/is_landing_page_of");
    reveal_strlit("https://www.ariadne-infrastructure.eu/resource/ao/cat/1.1/has_access_policy");
    reveal_strlit("https://www.ariadne-infrastructure.eu/resource/ao/cat/1.1/has_access_rights");
    reveal_strlit("https://www.ariadne-infrastructure.eu/resource/ao/cat/1.1/is_access_policy_of");
    reveal_strlit("https://www.ariadne-infrastructure.eu/resource/ao/cat/1.1/AO_Activity");
    reveal_strlit("https://www.ariadne-infrastructure.eu/resource/ao/cat/1.1/AO_Agent");
    reveal_strlit("https://www.ariadne-infrastructure.eu/resource/ao/cat/1.1/AO_Collection");
    reveal_strlit("https://www.ariadne-infrastructure.eu/resource/ao/cat/1.1/AO_Digital_Image");
    reveal_strlit("https://www.ariadne-infrastructure.eu/resource/ao/cat/1.1/AO_Digital_Media");
    reveal_strlit("https://www.ariadne-infrastructure.eu/resource/ao/cat/1.1/AO_Dimension");
    reveal_strlit("https://www.ariadne-infrastructure.eu/resource/ao/cat/1.1/AO_Data_Resource");
    reveal_strlit("https://www.ariadne-infrastructure.eu/resource/ao/cat/1.1/AO_Document");
    reveal_strlit("https://www.ariadne-infrastructure.eu/resource/ao/cat/1.1/AO_Entity");
    reveal_strlit("https://www.ariadne-infrastructure.eu/resource/ao/cat/1.1/AO_Event");
    reveal_strlit("https://www.ariadne-infrastructure.eu/resource/ao/cat/1.1/AO_Group");
    reveal_strlit("https://www.ariadne-infrastructure.eu/resource/ao/cat/1.1/AO_Individual_Data_Resource");
    reveal_strlit("https://www.ariadne-infrastructure.eu/resource/ao/cat/1.1/AO_Object");
    reveal_strlit("https://www.ariadne-infrastructure.eu/resource/ao/cat/1.1/AO_Person");
    reveal_strlit("https://www.ariadne-infrastructure.eu/resource/ao/cat/1.1/AO_Resource");
    reveal_strlit("https://www.ariadne-infrastructure.eu/resource/ao/cat/1.1/AO_Service");
    reveal_strlit("https://www.ariadne-infrastructure.eu/resource/ao/cat/1.1/AO_Spatial_Region");
    reveal_strlit("https://www.ariadne-infrastructure.eu/resource/ao/cat/1.1/AO_Spatial_Region_BBox");
    reveal_strlit("https://www.ariadne-infrastructure.eu/resource/ao/cat/1.1/AO_Spatial_Region_Point");
    reveal_strlit("https://www.ariadne-infrastructure.eu/resource/ao/cat/1.1/AO_Spatial_Region_Polygon");
    reveal_strlit("https://www.ariadne-infrastructure.eu/resource/ao/cat/1.1/AO_Spatial_Region_StdName");
    reveal_strlit("https://www.ariadne-infrastructure.eu/resource/ao/cat/1.1/AO_Temporal_Region");
    let sa = a.spec_iri();
    let sb = b.spec_iri();
    if sa == sb {
        assert(sa.len() == sb.len());
        assert(sa[sa.len() - 4] == sb[sb.len() - 4]);
        assert(sa[sa.len() - 12] == sb[sb.len() - 12]);
    }
    assert(sa.subrange(0, vocabulary_base().len() as int) =~= vocabulary_base());
}

/// Every term of `Class` has an IRI made of this vocabulary's base IRI
/// followed by a non-empty local name, and two distinct classes never
/// share an IRI.
pub proof fn lemma_class_iris(a: Class, b: Class)
    ensures
        a.spec_iri().len() > vocabulary_base().len(),
        a.spec_iri().subrange(0, vocabulary_base().len() as int) == vocabulary_base(),
        a != b ==> a.spec_iri() != b.spec_iri(),
{
    reveal_strlit("https://www.ariadne-infrastructure.eu/resource/ao/cat/1.1/");
    reveal_strlit("https://www.ariadne-infrastructure.eu/resource/ao/cat/1.1/has_name");
    reveal_strlit("https://www.ariadne-infrastructure.eu/resource/ao/cat/1.1/has_place_name");
    reveal_strlit("https://www.ariadne-infrastructure.eu/resource/ao/cat/1.1/has_data_type");
    reveal_strlit("https://www.ariadne-infrastructure.eu/resource/ao/cat/1.1/has_country");
    reveal_strlit("https://www.ariadne-infrastructure.eu/resource/ao/cat/1.1/has_spatial_coverage");
    reveal_strlit("https://www.ariadne-infrastructure.eu/resource/ao/cat/1.1/has_identifier");
    reveal_strlit("https://www.ariadne-infrastructure.eu/resource/ao/cat/1.1/has_type");
    reveal_strlit("https://www.ariadne-infrastructure.eu/resource/ao/cat/1.1/is_type_of");
    reveal_strlit("https://www.ariadne-infrastructure.eu/resource/ao/cat/1.1/has_title");
    reveal_strlit("https://www.ariadne-infrastructure.eu/resource/ao/cat/1.1/has_description");
    reveal_strlit("https://www.ariadne-infrastructure.eu/resource/ao/cat/1.1/was_issued");
    reveal_strlit("https://www.ariadne-infrastructure.eu/resource/ao/cat/1.1/was_modified");
    reveal_strlit("https://www.ariadne-infrastructure.eu/resource/ao/cat/1.1/has_part");
    reveal_strlit("https://www.ariadne-infrastructure.eu/resource/ao/cat/1.1/is_part_of");
    reveal_strlit("https://www.ariadne-infrastructure.eu/resource/ao/cat/1.1/has_publisher");
    reveal_strlit("https://www.ariadne-infrastructure.eu/resource/ao/cat/1.1/is_publisher_of");
    reveal_strlit("https://www.ariadne-infrastructure.eu/resource/ao/cat/1.1/has_contributor");
    reveal_strlit("https://www.ariadne-infrastructure.eu/resource/ao/cat/1.1/is_contributor_of");
    reveal_strlit("https://www.ariadne-infrastructure.eu/resource/ao/cat/1.1/has_creator");
    reveal_strlit("https://www.ariadne-infrastructure.eu/resource/ao/cat/1.1/is_creator_of");
    reveal_strlit("https://www.ariadne-infrastructure.eu/resource/ao/cat/1.1/has_owner");
    reveal_strlit("https://www.ariadne-infrastructure.eu/resource/ao/cat/1.1/is_owner_of");
    reveal_strlit("https://www.ariadne-infrastructure.eu/resource/ao/cat/1.1/has_responsible");
    reveal_strlit("https://www.ariadne-infrastructure.eu/resource/ao/cat/1.1/is_responsible_of");
    reveal_strlit("https://www.ariadne-infrastructure.eu/resource/ao/cat/1.1/has_visual_component");
    reveal_strlit("https://www.ariadne-infrastructure.eu/resource/ao/cat/1.1/is_visual_component_of");
    reveal_strlit("https://www.ariadne-infrastructure.eu/resource/ao/cat/1.1/has_primary_visual_component");
    reveal_strlit("https://www.ariadne-infrastructure.eu/resource/ao/cat/1.1/is_primary_visual_component_of");
    reveal_strlit("https://www.ariadne-infrastructure.eu/resource/ao/cat/1.1/is_rendered_by");
    reveal_strlit("https://www.ariadne-infrastructure.eu/resource/ao/cat/1.1/renders");
    reveal_strlit("https://www.ariadne-infrastructure.eu/resource/ao/cat/1.1/has_original_id");
    reveal_strlit("https://www.ariadne-infrastructure.eu/resource/ao/cat/1.1/refers_to");
    reveal_strlit("https://www.ariadne-infrastructure.eu/resource/ao/cat/1.1/is_referenced_by");
    reveal_strlit("https://www.ariadne-infrastructure.eu/resource/ao/cat/1.1/is_about");
    reveal_strlit("https://www.ariadne-infrastructure.eu/resource/ao/cat/1.1/is_subject_of");
    reveal_strlit("https://www.ariadne-infrastructure.eu/resource/ao/cat/1.1/has_ARIADNE_subject");
    reveal_strlit("https://www.ariadne-infrastructure.eu/resource/ao/cat/1.1/is_ARIADNE_subject_of");
    reveal_strlit("https://www.ariadne-infrastructure.eu/resource/ao/cat/1.1/has_native_subject");
    reveal_strlit("https://www.ariadne-infrastructure.eu/resource/ao/cat/1.1/is_native_subject_of");
    reveal_strlit("https://www.ariadne-infrastructure.eu/resource/ao/cat/1.1/has_derived_subject");
    reveal_strlit("https://www.ariadne-infrastructure.eu/resource/ao/cat/1.1/is_derived_subject_of");
    reveal_strlit("https://www.ariadne-infrastructure.eu/resource/ao/cat/1.1/has_language");
    reveal_strlit("https://www.ariadne-infrastructure.eu/resource/ao/cat/1.1/is_language_of");
    reveal_strlit("https://www.ariadne-infrastructure.eu/resource/ao/cat/1.1/was_created_on");
    reveal_strlit("https://www.ariadne-infrastructure.eu/resource/ao/cat/1.1/has_landing_page");
    reveal_strlit("https://www.ariadne-infrastructure.eu/resource/ao/cat/1.1/is_landing_page_of");
    reveal_strlit("https://www.ariadne-infrastructure.eu/resource/ao/cat/1.1/has_access_policy");
    reveal_strlit("https://www.ariadne-infrastructure.eu/resource/ao/cat/1.1/has_access_rights");
    reveal_strlit("https://www.ariadne-infrastructure.eu/resource/ao/cat/1.1/is_access_policy_of");
    reveal_strlit("https://www.ariadne-infrastructure.eu/resource/ao/cat/1.1/AO_Activity");
    reveal_strlit("https://www.ariadne-infrastructure.eu/resource/ao/cat/1.1/AO_Agent");
    reveal_strlit("https://www.ariadne-infrastructure.eu/resource/ao/cat/1.1/AO_Collection");
    reveal_strlit("https://www.ariadne-infrastructure.eu/resource/ao/cat/1.1/AO_Digital_Image");
    reveal_strlit("https://www.ariadne-infrastructure.eu/resource/ao/cat/1.1/AO_Digital_Media");
    reveal_strlit("https://www.ariadne-infrastructure.eu/resource/ao/cat/1.1/AO_Dimension");
    reveal_strlit("https://www.ariadne-infrastructure.eu/resource/ao/cat/1.1/AO_Data_Resource");
    reveal_strlit("https://www.ariadne-infrastructure.eu/resource/ao/cat/1.1/AO_Document");
    reveal_strlit("https://www.ariadne-infrastructure.eu/resource/ao/cat/1.1/AO_Entity");
    reveal_strlit("https://www.ariadne-infrastructure.eu/resource/ao/cat/1.1/AO_Event");
    reveal_strlit("https://www.ariadne-infrastructure.eu/resource/ao/cat/1.1/AO_Group");
    reveal_strlit("https://www.ariadne-infrastructure.eu/resource/ao/cat/1.1/AO_Individual_Data_Resource");
    reveal_strlit("https://www.ariadne-infrastructure.eu/resource/ao/cat/1.1/AO_Object");
    reveal_strlit("https://www.ariadne-infrastructure.eu/resource/ao/cat/1.1/AO_Person");
    reveal_strlit("https://www.ariadne-infrastructure.eu/resource/ao/cat/1.1/AO_Resource");
    reveal_strlit("https://www.ariadne-infrastructure.eu/resource/ao/cat/1.1/AO_Service");
    reveal_strlit("https://www.ariadne-infrastructure.eu/resource/ao/cat/1.1/AO_Spatial_Region");
    reveal_strlit("https://www.ariadne-infrastructure.eu/resource/ao/cat/1.1/AO_Spatial_Region_BBox");
    reveal_strlit("https://www.ariadne-infrastructure.eu/resource/ao/cat/1.1/AO_Spatial_Region_Point");
    reveal_strlit("https://www.ariadne-infrastructure.eu/resource/ao/cat/1.1/AO_Spatial_Region_Polygon");
    reveal_strlit("https://www.ariadne-infrastructure.eu/resource/ao/cat/1.1/AO_Spatial_Region_StdName");
    reveal_strlit("https://www.ariadne-infrastructure.eu/resource/ao/cat/1.1/AO_Temporal_Region");
    let sa = a.spec_iri();
    let sb = b.spec_iri();
    if sa == sb {
        assert(sa.len() == sb.len());
        assert(sa[sa.len() - 4] == sb[sb.len() - 4]);
    }
    assert(sa.subrange(0, vocabulary_base().len() as int) =~= vocabulary_base());
}

/// No property of this vocabulary shares its IRI with a class.
pub proof fn lemma_property_and_class_iris_differ(p: Property, c: Class)
    ensures
        p.spec_iri() != c.spec_iri(),
{
    reveal_strlit("https://www.ariadne-infrastructure.eu/resource/ao/cat/1.1/");
    reveal_strlit("https://www.ariadne-infrastructure.eu/resource/ao/cat/1.1/has_name");
    reveal_strlit("https://www.ariadne-infrastructure.eu/resource/ao/cat/1.1/has_place_name");
    reveal_strlit("https://www.ariadne-infrastructure.eu/resource/ao/cat/1.1/has_data_type");
    reveal_strlit("https://www.ariadne-infrastructure.eu/resource/ao/cat/1.1/has_country");
    reveal_strlit("https://www.ariadne-infrastructure.eu/resource/ao/cat/1.1/has_spatial_coverage");
    reveal_strlit("https://www.ariadne-infrastructure.eu/resource/ao/cat/1.1/has_identifier");
    reveal_strlit("https://www.ariadne-infrastructure.eu/resource/ao/cat/1.1/has_type");
    reveal_strlit("https://www.ariadne-infrastructure.eu/resource/ao/cat/1.1/is_type_of");
    reveal_strlit("https://www.ariadne-infrastructure.eu/resource/ao/cat/1.1/has_title");
    reveal_strlit("https://www.ariadne-infrastructure.eu/resource/ao/cat/1.1/has_description");
    reveal_strlit("https://www.ariadne-infrastructure.eu/resource/ao/cat/1.1/was_issued");
    reveal_strlit("https://www.ariadne-infrastructure.eu/resource/ao/cat/1.1/was_modified");
    reveal_strlit("https://www.ariadne-infrastructure.eu/resource/ao/cat/1.1/has_part");
    reveal_strlit("https://www.ariadne-infrastructure.eu/resource/ao/cat/1.1/is_part_of");
    reveal_strlit("https://www.ariadne-infrastructure.eu/resource/ao/cat/1.1/has_publisher");
    reveal_strlit("https://www.ariadne-infrastructure.eu/resource/ao/cat/1.1/is_publisher_of");
    reveal_strlit("https://www.ariadne-infrastructure.eu/resource/ao/cat/1.1/has_contributor");
    reveal_strlit("https://www.ariadne-infrastructure.eu/resource/ao/cat/1.1/is_contributor_of");
    reveal_strlit("https://www.ariadne-infrastructure.eu/resource/ao/cat/1.1/has_creator");
    reveal_strlit("https://www.ariadne-infrastructure.eu/resource/ao/cat/1.1/is_creator_of");
    reveal_strlit("https://www.ariadne-infrastructure.eu/resource/ao/cat/1.1/has_owner");
    reveal_strlit("https://www.ariadne-infrastructure.eu/resource/ao/cat/1.1/is_owner_of");
    reveal_strlit("https://www.ariadne-infrastructure.eu/resource/ao/cat/1.1/has_responsible");
    reveal_strlit("https://www.ariadne-infrastructure.eu/resource/ao/cat/1.1/is_responsible_of");
    reveal_strlit("https://www.ariadne-infrastructure.eu/resource/ao/cat/1.1/has_visual_component");
    reveal_strlit("https://www.ariadne-infrastructure.eu/resource/ao/cat/1.1/is_visual_component_of");
    reveal_strlit("https://www.ariadne-infrastructure.eu/resource/ao/cat/1.1/has_primary_visual_component");
    reveal_strlit("https://www.ariadne-infrastructure.eu/resource/ao/cat/1.1/is_primary_visual_component_of");
    reveal_strlit("https://www.ariadne-infrastructure.eu/resource/ao/cat/1.1/is_rendered_by");
    reveal_strlit("https://www.ariadne-infrastructure.eu/resource/ao/cat/1.1/renders");
    reveal_strlit("https://www.ariadne-infrastructure.eu/resource/ao/cat/1.1/has_original_id");
    reveal_strlit("https://www.ariadne-infrastructure.eu/resource/ao/cat/1.1/refers_to");
    reveal_strlit("https://www.ariadne-infrastructure.eu/resource/ao/cat/1.1/is_referenced_by");
    reveal_strlit("https://www.ariadne-infrastructure.eu/resource/ao/cat/1.1/is_about");
    reveal_strlit("https://www.ariadne-infrastructure.eu/resource/ao/cat/1.1/is_subject_of");
    reveal_strlit("https://www.ariadne-infrastructure.eu/resource/ao/cat/1.1/has_ARIADNE_subject");
    reveal_strlit("https://www.ariadne-infrastructure.eu/resource/ao/cat/1.1/is_ARIADNE_subject_of");
    reveal_strlit("https://www.ariadne-infrastructure.eu/resource/ao/cat/1.1/has_native_subject");
    reveal_strlit("https://www.ariadne-infrastructure.eu/resource/ao/cat/1.1/is_native_subject_of");
    reveal_strlit("https://www.ariadne-infrastructure.eu/resource/ao/cat/1.1/has_derived_subject");
    reveal_strlit("https://www.ariadne-infrastructure.eu/resource/ao/cat/1.1/is_derived_subject_of");
    reveal_strlit("https://www.ariadne-infrastructure.eu/resource/ao/cat/1.1/has_language");
    reveal_strlit("https://www.ariadne-infrastructure.eu/resource/ao/cat/1.1/is_language_of");
    reveal_strlit("https://www.ariadne-infrastructure.eu/resource/ao/cat/1.1/was_created_on");
    reveal_strlit("https://www.ariadne-infrastructure.eu/resource/ao/cat/1.1/has_landing_page");
    reveal_strlit("https://www.ariadne-infrastructure.eu/resource/ao/cat/1.1/is_landing_page_of");
    reveal_strlit("https://www.ariadne-infrastructure.eu/resource/ao/cat/1.1/has_access_policy");
    reveal_strlit("https://www.ariadne-infrastructure.eu/resource/ao/cat/1.1/has_access_rights");
    reveal_strlit("https://www.ariadne-infrastructure.eu/resource/ao/cat/1.1/is_access_policy_of");
    reveal_strlit("https://www.ariadne-infrastructure.eu/resource/ao/cat/1.1/AO_Activity");
    reveal_strlit("https://www.ariadne-infrastructure.eu/resource/ao/cat/1.1/AO_Agent");
    reveal_strlit("https://www.ariadne-infrastructure.eu/resource/ao/cat/1.1/AO_Collection");
    reveal_strlit("https://www.ariadne-infrastructure.eu/resource/ao/cat/1.1/AO_Digital_Image");
    reveal_strlit("https://www.ariadne-infrastructure.eu/resource/ao/cat/1.1/AO_Digital_Media");
    reveal_strlit("https://www.ariadne-infrastructure.eu/resource/ao/cat/1.1/AO_Dimension");
    reveal_strlit("https://www.ariadne-infrastructure.eu/resource/ao/cat/1.1/AO_Data_Resource");
    reveal_strlit("https://www.ariadne-infrastructure.eu/resource/ao/cat/1.1/AO_Document");
    reveal_strlit("https://www.ariadne-infrastructure.eu/resource/ao/cat/1.1/AO_Entity");
    reveal_strlit("https://www.ariadne-infrastructure.eu/resource/ao/cat/1.1/AO_Event");
    reveal_strlit("https://www.ariadne-infrastructure.eu/resource/ao/cat/1.1/AO_Group");
    reveal_strlit("https://www.ariadne-infrastructure.eu/resource/ao/cat/1.1/AO_Individual_Data_Resource");
    reveal_strlit("https://www.ariadne-infrastructure.eu/resource/ao/cat/1.1/AO_Object");
    reveal_strlit("https://www.ariadne-infrastructure.eu/resource/ao/cat/1.1/AO_Person");
    reveal_strlit("https://www.ariadne-infrastructure.eu/resource/ao/cat/1.1/AO_Resource");
    reveal_strlit("https://www.ariadne-infrastructure.eu/resource/ao/cat/1.1/AO_Service");
    reveal_strlit("https://www.ariadne-infrastructure.eu/resource/ao/cat/1.1/AO_Spatial_Region");
    reveal_strlit("https://www.ariadne-infrastructure.eu/resource/ao/cat/1.1/AO_Spatial_Region_BBox");
    reveal_strlit("https://www.ariadne-infrastructure.eu/resource/ao/cat/1.1/AO_Spatial_Region_Point");
    reveal_strlit("https://www.ariadne-infrastructure.eu/resource/ao/cat/1.1/AO_Spatial_Region_Polygon");
    reveal_strlit("https://www.ariadne-infrastructure.eu/resource/ao/cat/1.1/AO_Spatial_Region_StdName");
    reveal_strlit("https://www.ariadne-infrastructure.eu/resource/ao/cat/1.1/AO_Temporal_Region");
    let sp = p.spec_iri();
    let sc = c.spec_iri();
    if sp == sc {
        assert(sp.len() == sc.len());
        assert(sp[sp.len() - 4] == sc[sc.len() - 4]);
        assert(sp[sp.len() - 12] == sc[sc.len() - 12]);
    }
}

} // verus!
