//! The documents of the entities of the schema: under which names their fields
//! are written and read, and that a written entity reads back as itself.

use crate::document::{
    date_field, entities_are_canonical, entities_field, entity_field, entity_is_canonical,
    insert_all, insert_date, insert_entities, insert_entity, insert_text, insert_text_list,
    insert_uri, lemma_read_each_round_trip, lemma_read_extras, lemma_read_next,
    lemma_read_texts_round_trip, placed, put_all, put_entities, put_entity, put_present,
    put_text, put_text_list, read_entities, read_entity, read_text, read_text_list,
    read_uri, reads_back, text_field, text_list_field, under, uri_field,
    uri_is_canonical, writes_extras_last, written_entities, written_entity, written_text,
    written_text_list, Document, DocumentError, PathModel,
};
use crate::json::{keys_unique, put, JsonModel, JsonValue, PropertyMap, PropertyModel};
use crate::json_resume::{
    Award, AwardModel, Basics, BasicsModel, Certificate, CertificateModel, Education,
    EducationModel, Interest, InterestModel, Language, LanguageModel, Location, LocationModel,
    Meta, MetaModel, Profile, ProfileModel, Project, ProjectModel, Publication,
    PublicationModel, Reference, ReferenceModel, Resume, ResumeModel, Skill, SkillModel,
    VolunteerExperience, VolunteerExperienceModel, WorkExperience, WorkExperienceModel,
};
use crate::text::str_equal;
use vstd::prelude::*;
use vstd::string::*;

verus! {

impl Document for Location {
    open spec fn blank() -> LocationModel {
        LocationModel::empty()
    }

    open spec fn knows(key: Seq<char>) -> bool {
        ||| key == "address"@
        ||| key == "postalCode"@
        ||| key == "city"@
        ||| key == "countryCode"@
        ||| key == "region"@
    }

    open spec fn absorb(model: LocationModel, key: Seq<char>, value: JsonModel) -> Result<
        LocationModel,
        PathModel,
    > {
        if key == "address"@ {
            placed(under(key, read_text(value)), |found| LocationModel { address: found, ..model })
        } else if key == "postalCode"@ {
            placed(
                under(key, read_text(value)),
                |found| LocationModel { postal_code: found, ..model },
            )
        } else if key == "city"@ {
            placed(under(key, read_text(value)), |found| LocationModel { city: found, ..model })
        } else if key == "countryCode"@ {
            placed(
                under(key, read_text(value)),
                |found| LocationModel { country_code: found, ..model },
            )
        } else if key == "region"@ {
            placed(under(key, read_text(value)), |found| LocationModel { region: found, ..model })
        } else {
            Ok(Self::with_extras(model, put(model.additional_properties, key, value)))
        }
    }

    open spec fn fields_of(model: LocationModel) -> PropertyModel {
        let fields = Seq::<(Seq<char>, JsonModel)>::empty();
        let fields = put_text(fields, "address"@, model.address);
        let fields = put_text(fields, "postalCode"@, model.postal_code);
        let fields = put_text(fields, "city"@, model.city);
        let fields = put_text(fields, "countryCode"@, model.country_code);
        let fields = put_text(fields, "region"@, model.region);
        put_all(fields, model.additional_properties)
    }

    open spec fn canonical(model: LocationModel) -> bool {
        &&& keys_unique(model.additional_properties)
        &&& forall|i: int|
            0 <= i < model.additional_properties.len() ==> !Self::knows(
                #[trigger] model.additional_properties[i].0,
            )
    }

    open spec fn extras(model: LocationModel) -> PropertyModel {
        model.additional_properties
    }

    open spec fn with_extras(model: LocationModel, extras: PropertyModel) -> LocationModel {
        LocationModel { additional_properties: extras, ..model }
    }

    fn start() -> (r: Location) {
        Location::new()
    }

    fn take(&mut self, key: &str, value: &JsonValue) -> (r: Result<(), DocumentError>) {
        if str_equal(key, "address") {
            self.address = text_field(key, value)?;
        } else if str_equal(key, "postalCode") {
            self.postal_code = text_field(key, value)?;
        } else if str_equal(key, "city") {
            self.city = text_field(key, value)?;
        } else if str_equal(key, "countryCode") {
            self.country_code = text_field(key, value)?;
        } else if str_equal(key, "region") {
            self.region = text_field(key, value)?;
        } else {
            self.additional_properties.insert(String::from_str(key), value.clone());
        }
        Ok(())
    }

    fn to_fields(&self) -> (r: PropertyMap) {
        let mut fields = PropertyMap::new();
        insert_text(&mut fields, "address", &self.address);
        insert_text(&mut fields, "postalCode", &self.postal_code);
        insert_text(&mut fields, "city", &self.city);
        insert_text(&mut fields, "countryCode", &self.country_code);
        insert_text(&mut fields, "region", &self.region);
        insert_all(&mut fields, &self.additional_properties);
        fields
    }

    proof fn lemma_absorb_extras(model: LocationModel, key: Seq<char>, value: JsonModel) {
    }

    proof fn lemma_with_extras(model: LocationModel, first: PropertyModel, second: PropertyModel) {
    }
}

/// How the names of the fields of a location are spelled, as far as it
/// takes to tell them apart.
proof fn lemma_location_names()
    ensures
        "address"@.len() == 7,
        "postalCode"@.len() == 10,
        "city"@.len() == 4,
        "countryCode"@.len() == 11,
        "region"@.len() == 6,
{
    reveal_strlit("address");
    reveal_strlit("postalCode");
    reveal_strlit("city");
    reveal_strlit("countryCode");
    reveal_strlit("region");
}

/// Reading a field that was written for a location puts it back in its place.
proof fn lemma_location_reads_written(model: LocationModel)
    requires
        Location::canonical(model),
    ensures
        model.address is Some ==> forall|before: LocationModel| #[trigger]
            Location::absorb(
                before,
                "address"@,
                written_text(model.address)->0,
            ) == Ok::<LocationModel, PathModel>(
                LocationModel { address: model.address, ..before },
            ),
        model.postal_code is Some ==> forall|before: LocationModel| #[trigger]
            Location::absorb(
                before,
                "postalCode"@,
                written_text(model.postal_code)->0,
            ) == Ok::<LocationModel, PathModel>(
                LocationModel { postal_code: model.postal_code, ..before },
            ),
        model.city is Some ==> forall|before: LocationModel| #[trigger]
            Location::absorb(
                before,
                "city"@,
                written_text(model.city)->0,
            ) == Ok::<LocationModel, PathModel>(
                LocationModel { city: model.city, ..before },
            ),
        model.country_code is Some ==> forall|before: LocationModel| #[trigger]
            Location::absorb(
                before,
                "countryCode"@,
                written_text(model.country_code)->0,
            ) == Ok::<LocationModel, PathModel>(
                LocationModel { country_code: model.country_code, ..before },
            ),
        model.region is Some ==> forall|before: LocationModel| #[trigger]
            Location::absorb(
                before,
                "region"@,
                written_text(model.region)->0,
            ) == Ok::<LocationModel, PathModel>(
                LocationModel { region: model.region, ..before },
            ),
{
    lemma_location_names();
}

/// Writing and reading back a location that is canonical gives it again; that
/// holds in particular of one that has modelled fields only. What is kept
/// beside the modelled fields is written behind them, as it is.
pub proof fn lemma_location_round_trip(model: LocationModel)
    requires
        Location::canonical(model),
    ensures
        reads_back::<Location>(model),
        writes_extras_last::<Location>(model),
{
    lemma_location_names();
    lemma_location_reads_written(model);
    let fields0 = Seq::<(Seq<char>, JsonModel)>::empty();
    let model0 = LocationModel::empty();
    let earlier0 = |other: Seq<char>| false;
    let fields1 = put_present(fields0, "address"@, written_text(model.address));
    let model1 = LocationModel { address: model.address, ..model0 };
    let earlier1 = |other: Seq<char>| earlier0(other) || other == "address"@;
    lemma_read_next::<Location>(
        fields0,
        model0,
        "address"@,
        written_text(model.address),
        model1,
        earlier0,
    );
    let fields2 = put_present(fields1, "postalCode"@, written_text(model.postal_code));
    let model2 = LocationModel { postal_code: model.postal_code, ..model1 };
    let earlier2 = |other: Seq<char>| earlier1(other) || other == "postalCode"@;
    lemma_read_next::<Location>(
        fields1,
        model1,
        "postalCode"@,
        written_text(model.postal_code),
        model2,
        earlier1,
    );
    let fields3 = put_present(fields2, "city"@, written_text(model.city));
    let model3 = LocationModel { city: model.city, ..model2 };
    let earlier3 = |other: Seq<char>| earlier2(other) || other == "city"@;
    lemma_read_next::<Location>(
        fields2,
        model2,
        "city"@,
        written_text(model.city),
        model3,
        earlier2,
    );
    let fields4 = put_present(fields3, "countryCode"@, written_text(model.country_code));
    let model4 = LocationModel { country_code: model.country_code, ..model3 };
    let earlier4 = |other: Seq<char>| earlier3(other) || other == "countryCode"@;
    lemma_read_next::<Location>(
        fields3,
        model3,
        "countryCode"@,
        written_text(model.country_code),
        model4,
        earlier3,
    );
    let fields5 = put_present(fields4, "region"@, written_text(model.region));
    let model5 = LocationModel { region: model.region, ..model4 };
    let earlier5 = |other: Seq<char>| earlier4(other) || other == "region"@;
    lemma_read_next::<Location>(
        fields4,
        model4,
        "region"@,
        written_text(model.region),
        model5,
        earlier4,
    );
    lemma_read_extras::<Location>(fields5, model5, model.additional_properties);
    assert(Location::with_extras(model5, model.additional_properties) =~= model);
    assert(Location::with_extras(model, Seq::empty()) =~= model5);
    assert(put_all(fields5, Seq::empty()) == fields5);
}

impl Document for Profile {
    open spec fn blank() -> ProfileModel {
        ProfileModel::empty()
    }

    open spec fn knows(key: Seq<char>) -> bool {
        ||| key == "network"@
        ||| key == "username"@
        ||| key == "url"@
    }

    open spec fn absorb(model: ProfileModel, key: Seq<char>, value: JsonModel) -> Result<
        ProfileModel,
        PathModel,
    > {
        if key == "network"@ {
            placed(under(key, read_text(value)), |found| ProfileModel { network: found, ..model })
        } else if key == "username"@ {
            placed(under(key, read_text(value)), |found| ProfileModel { username: found, ..model })
        } else if key == "url"@ {
            placed(under(key, read_uri(value)), |found| ProfileModel { url: found, ..model })
        } else {
            Ok(Self::with_extras(model, put(model.additional_properties, key, value)))
        }
    }

    open spec fn fields_of(model: ProfileModel) -> PropertyModel {
        let fields = Seq::<(Seq<char>, JsonModel)>::empty();
        let fields = put_text(fields, "network"@, model.network);
        let fields = put_text(fields, "username"@, model.username);
        let fields = put_text(fields, "url"@, model.url);
        put_all(fields, model.additional_properties)
    }

    open spec fn canonical(model: ProfileModel) -> bool {
        &&& keys_unique(model.additional_properties)
        &&& forall|i: int|
            0 <= i < model.additional_properties.len() ==> !Self::knows(
                #[trigger] model.additional_properties[i].0,
            )
        &&& uri_is_canonical(model.url)
    }

    open spec fn extras(model: ProfileModel) -> PropertyModel {
        model.additional_properties
    }

    open spec fn with_extras(model: ProfileModel, extras: PropertyModel) -> ProfileModel {
        ProfileModel { additional_properties: extras, ..model }
    }

    fn start() -> (r: Profile) {
        Profile::new()
    }

    fn take(&mut self, key: &str, value: &JsonValue) -> (r: Result<(), DocumentError>) {
        if str_equal(key, "network") {
            self.network = text_field(key, value)?;
        } else if str_equal(key, "username") {
            self.username = text_field(key, value)?;
        } else if str_equal(key, "url") {
            self.url = uri_field(key, value)?;
        } else {
            self.additional_properties.insert(String::from_str(key), value.clone());
        }
        Ok(())
    }

    fn to_fields(&self) -> (r: PropertyMap) {
        let mut fields = PropertyMap::new();
        insert_text(&mut fields, "network", &self.network);
        insert_text(&mut fields, "username", &self.username);
        insert_uri(&mut fields, "url", &self.url);
        insert_all(&mut fields, &self.additional_properties);
        fields
    }

    proof fn lemma_absorb_extras(model: ProfileModel, key: Seq<char>, value: JsonModel) {
    }

    proof fn lemma_with_extras(model: ProfileModel, first: PropertyModel, second: PropertyModel) {
    }
}

/// How the names of the fields of an account are spelled, as far as it
/// takes to tell them apart.
proof fn lemma_profile_names()
    ensures
        "network"@.len() == 7,
        "username"@.len() == 8,
        "url"@.len() == 3,
{
    reveal_strlit("network");
    reveal_strlit("username");
    reveal_strlit("url");
}

/// Reading a field that was written for an account puts it back in its place.
proof fn lemma_profile_reads_written(model: ProfileModel)
    requires
        Profile::canonical(model),
    ensures
        model.network is Some ==> forall|before: ProfileModel| #[trigger]
            Profile::absorb(
                before,
                "network"@,
                written_text(model.network)->0,
            ) == Ok::<ProfileModel, PathModel>(
                ProfileModel { network: model.network, ..before },
            ),
        model.username is Some ==> forall|before: ProfileModel| #[trigger]
            Profile::absorb(
                before,
                "username"@,
                written_text(model.username)->0,
            ) == Ok::<ProfileModel, PathModel>(
                ProfileModel { username: model.username, ..before },
            ),
        model.url is Some ==> forall|before: ProfileModel| #[trigger]
            Profile::absorb(
                before,
                "url"@,
                written_text(model.url)->0,
            ) == Ok::<ProfileModel, PathModel>(
                ProfileModel { url: model.url, ..before },
            ),
{
    lemma_profile_names();
}

/// Writing and reading back an account that is canonical gives it again; that
/// holds in particular of one that has modelled fields only. What is kept
/// beside the modelled fields is written behind them, as it is.
pub proof fn lemma_profile_round_trip(model: ProfileModel)
    requires
        Profile::canonical(model),
    ensures
        reads_back::<Profile>(model),
        writes_extras_last::<Profile>(model),
{
    lemma_profile_names();
    lemma_profile_reads_written(model);
    let fields0 = Seq::<(Seq<char>, JsonModel)>::empty();
    let model0 = ProfileModel::empty();
    let earlier0 = |other: Seq<char>| false;
    let fields1 = put_present(fields0, "network"@, written_text(model.network));
    let model1 = ProfileModel { network: model.network, ..model0 };
    let earlier1 = |other: Seq<char>| earlier0(other) || other == "network"@;
    lemma_read_next::<Profile>(
        fields0,
        model0,
        "network"@,
        written_text(model.network),
        model1,
        earlier0,
    );
    let fields2 = put_present(fields1, "username"@, written_text(model.username));
    let model2 = ProfileModel { username: model.username, ..model1 };
    let earlier2 = |other: Seq<char>| earlier1(other) || other == "username"@;
    lemma_read_next::<Profile>(
        fields1,
        model1,
        "username"@,
        written_text(model.username),
        model2,
        earlier1,
    );
    let fields3 = put_present(fields2, "url"@, written_text(model.url));
    let model3 = ProfileModel { url: model.url, ..model2 };
    let earlier3 = |other: Seq<char>| earlier2(other) || other == "url"@;
    lemma_read_next::<Profile>(fields2, model2, "url"@, written_text(model.url), model3, earlier2);
    lemma_read_extras::<Profile>(fields3, model3, model.additional_properties);
    assert(Profile::with_extras(model3, model.additional_properties) =~= model);
    assert(Profile::with_extras(model, Seq::empty()) =~= model3);
    assert(put_all(fields3, Seq::empty()) == fields3);
}

impl Document for Basics {
    open spec fn blank() -> BasicsModel {
        BasicsModel::empty()
    }

    open spec fn knows(key: Seq<char>) -> bool {
        ||| key == "name"@
        ||| key == "label"@
        ||| key == "image"@
        ||| key == "email"@
        ||| key == "phone"@
        ||| key == "url"@
        ||| key == "summary"@
        ||| key == "location"@
        ||| key == "profiles"@
    }

    open spec fn absorb(model: BasicsModel, key: Seq<char>, value: JsonModel) -> Result<
        BasicsModel,
        PathModel,
    > {
        if key == "name"@ {
            placed(under(key, read_text(value)), |found| BasicsModel { name: found, ..model })
        } else if key == "label"@ {
            placed(under(key, read_text(value)), |found| BasicsModel { label: found, ..model })
        } else if key == "image"@ {
            placed(under(key, read_uri(value)), |found| BasicsModel { image: found, ..model })
        } else if key == "email"@ {
            placed(under(key, read_text(value)), |found| BasicsModel { email: found, ..model })
        } else if key == "phone"@ {
            placed(under(key, read_text(value)), |found| BasicsModel { phone: found, ..model })
        } else if key == "url"@ {
            placed(under(key, read_uri(value)), |found| BasicsModel { url: found, ..model })
        } else if key == "summary"@ {
            placed(under(key, read_text(value)), |found| BasicsModel { summary: found, ..model })
        } else if key == "location"@ {
            placed(
                under(key, read_entity::<Location>(value)),
                |found| BasicsModel { location: found, ..model },
            )
        } else if key == "profiles"@ {
            placed(
                under(key, read_entities::<Profile>(value)),
                |found| BasicsModel { profiles: found, ..model },
            )
        } else {
            Ok(Self::with_extras(model, put(model.additional_properties, key, value)))
        }
    }

    open spec fn fields_of(model: BasicsModel) -> PropertyModel {
        let fields = Seq::<(Seq<char>, JsonModel)>::empty();
        let fields = put_text(fields, "name"@, model.name);
        let fields = put_text(fields, "label"@, model.label);
        let fields = put_text(fields, "image"@, model.image);
        let fields = put_text(fields, "email"@, model.email);
        let fields = put_text(fields, "phone"@, model.phone);
        let fields = put_text(fields, "url"@, model.url);
        let fields = put_text(fields, "summary"@, model.summary);
        let fields = put_entity::<Location>(fields, "location"@, model.location);
        let fields = put_entities::<Profile>(fields, "profiles"@, model.profiles);
        put_all(fields, model.additional_properties)
    }

    open spec fn canonical(model: BasicsModel) -> bool {
        &&& keys_unique(model.additional_properties)
        &&& forall|i: int|
            0 <= i < model.additional_properties.len() ==> !Self::knows(
                #[trigger] model.additional_properties[i].0,
            )
        &&& uri_is_canonical(model.image)
        &&& uri_is_canonical(model.url)
        &&& entity_is_canonical::<Location>(model.location)
        &&& entities_are_canonical::<Profile>(model.profiles)
    }

    open spec fn extras(model: BasicsModel) -> PropertyModel {
        model.additional_properties
    }

    open spec fn with_extras(model: BasicsModel, extras: PropertyModel) -> BasicsModel {
        BasicsModel { additional_properties: extras, ..model }
    }

    fn start() -> (r: Basics) {
        Basics::new()
    }

    fn take(&mut self, key: &str, value: &JsonValue) -> (r: Result<(), DocumentError>) {
        if str_equal(key, "name") {
            self.name = text_field(key, value)?;
        } else if str_equal(key, "label") {
            self.label = text_field(key, value)?;
        } else if str_equal(key, "image") {
            self.image = uri_field(key, value)?;
        } else if str_equal(key, "email") {
            self.email = text_field(key, value)?;
        } else if str_equal(key, "phone") {
            self.phone = text_field(key, value)?;
        } else if str_equal(key, "url") {
            self.url = uri_field(key, value)?;
        } else if str_equal(key, "summary") {
            self.summary = text_field(key, value)?;
        } else if str_equal(key, "location") {
            self.location = entity_field::<Location>(key, value)?;
        } else if str_equal(key, "profiles") {
            self.profiles = entities_field::<Profile>(key, value)?;
        } else {
            self.additional_properties.insert(String::from_str(key), value.clone());
        }
        Ok(())
    }

    fn to_fields(&self) -> (r: PropertyMap) {
        let mut fields = PropertyMap::new();
        insert_text(&mut fields, "name", &self.name);
        insert_text(&mut fields, "label", &self.label);
        insert_uri(&mut fields, "image", &self.image);
        insert_text(&mut fields, "email", &self.email);
        insert_text(&mut fields, "phone", &self.phone);
        insert_uri(&mut fields, "url", &self.url);
        insert_text(&mut fields, "summary", &self.summary);
        insert_entity(&mut fields, "location", &self.location);
        insert_entities(&mut fields, "profiles", &self.profiles);
        insert_all(&mut fields, &self.additional_properties);
        fields
    }

    proof fn lemma_absorb_extras(model: BasicsModel, key: Seq<char>, value: JsonModel) {
    }

    proof fn lemma_with_extras(model: BasicsModel, first: PropertyModel, second: PropertyModel) {
    }
}

/// How the names of the fields of the basics are spelled, as far as it
/// takes to tell them apart.
proof fn lemma_basics_names()
    ensures
        "name"@.len() == 4,
        "label"@.len() == 5,
        "image"@.len() == 5,
        "email"@.len() == 5,
        "phone"@.len() == 5,
        "url"@.len() == 3,
        "summary"@.len() == 7,
        "location"@.len() == 8,
        "profiles"@.len() == 8,
        "label"@[0] == 'l',
        "image"@[0] == 'i',
        "email"@[0] == 'e',
        "phone"@[0] == 'p',
        "location"@[0] == 'l',
        "profiles"@[0] == 'p',
{
    reveal_strlit("name");
    reveal_strlit("label");
    reveal_strlit("image");
    reveal_strlit("email");
    reveal_strlit("phone");
    reveal_strlit("url");
    reveal_strlit("summary");
    reveal_strlit("location");
    reveal_strlit("profiles");
}

/// Reading a field that was written for the basics puts it back in its place.
proof fn lemma_basics_reads_written(model: BasicsModel)
    requires
        Basics::canonical(model),
    ensures
        model.name is Some ==> forall|before: BasicsModel| #[trigger]
            Basics::absorb(
                before,
                "name"@,
                written_text(model.name)->0,
            ) == Ok::<BasicsModel, PathModel>(
                BasicsModel { name: model.name, ..before },
            ),
        model.label is Some ==> forall|before: BasicsModel| #[trigger]
            Basics::absorb(
                before,
                "label"@,
                written_text(model.label)->0,
            ) == Ok::<BasicsModel, PathModel>(
                BasicsModel { label: model.label, ..before },
            ),
        model.image is Some ==> forall|before: BasicsModel| #[trigger]
            Basics::absorb(
                before,
                "image"@,
                written_text(model.image)->0,
            ) == Ok::<BasicsModel, PathModel>(
                BasicsModel { image: model.image, ..before },
            ),
        model.email is Some ==> forall|before: BasicsModel| #[trigger]
            Basics::absorb(
                before,
                "email"@,
                written_text(model.email)->0,
            ) == Ok::<BasicsModel, PathModel>(
                BasicsModel { email: model.email, ..before },
            ),
        model.phone is Some ==> forall|before: BasicsModel| #[trigger]
            Basics::absorb(
                before,
                "phone"@,
                written_text(model.phone)->0,
            ) == Ok::<BasicsModel, PathModel>(
                BasicsModel { phone: model.phone, ..before },
            ),
        model.url is Some ==> forall|before: BasicsModel| #[trigger]
            Basics::absorb(
                before,
                "url"@,
                written_text(model.url)->0,
            ) == Ok::<BasicsModel, PathModel>(
                BasicsModel { url: model.url, ..before },
            ),
        model.summary is Some ==> forall|before: BasicsModel| #[trigger]
            Basics::absorb(
                before,
                "summary"@,
                written_text(model.summary)->0,
            ) == Ok::<BasicsModel, PathModel>(
                BasicsModel { summary: model.summary, ..before },
            ),
        model.location is Some ==> forall|before: BasicsModel| #[trigger]
            Basics::absorb(
                before,
                "location"@,
                written_entity::<Location>(model.location)->0,
            ) == Ok::<BasicsModel, PathModel>(
                BasicsModel { location: model.location, ..before },
            ),
        model.profiles is Some ==> forall|before: BasicsModel| #[trigger]
            Basics::absorb(
                before,
                "profiles"@,
                written_entities::<Profile>(model.profiles)->0,
            ) == Ok::<BasicsModel, PathModel>(
                BasicsModel { profiles: model.profiles, ..before },
            ),
{
    lemma_basics_names();
    if let Some(entity) = model.location {
        lemma_location_round_trip(entity);
    }
    if let Some(entities) = model.profiles {
        assert forall|i: int| 0 <= i < entities.len() implies reads_back::<Profile>(
            #[trigger] entities[i],
        ) by {
            lemma_profile_round_trip(entities[i]);
        }
        lemma_read_each_round_trip::<Profile>(entities);
    }
}

/// Writing and reading back the basics that is canonical gives it again; that
/// holds in particular of one that has modelled fields only. What is kept
/// beside the modelled fields is written behind them, as it is.
pub proof fn lemma_basics_round_trip(model: BasicsModel)
    requires
        Basics::canonical(model),
    ensures
        reads_back::<Basics>(model),
        writes_extras_last::<Basics>(model),
{
    lemma_basics_names();
    lemma_basics_reads_written(model);
    let fields0 = Seq::<(Seq<char>, JsonModel)>::empty();
    let model0 = BasicsModel::empty();
    let earlier0 = |other: Seq<char>| false;
    let fields1 = put_present(fields0, "name"@, written_text(model.name));
    let model1 = BasicsModel { name: model.name, ..model0 };
    let earlier1 = |other: Seq<char>| earlier0(other) || other == "name"@;
    lemma_read_next::<Basics>(fields0, model0, "name"@, written_text(model.name), model1, earlier0);
    let fields2 = put_present(fields1, "label"@, written_text(model.label));
    let model2 = BasicsModel { label: model.label, ..model1 };
    let earlier2 = |other: Seq<char>| earlier1(other) || other == "label"@;
    lemma_read_next::<Basics>(
        fields1,
        model1,
        "label"@,
        written_text(model.label),
        model2,
        earlier1,
    );
    let fields3 = put_present(fields2, "image"@, written_text(model.image));
    let model3 = BasicsModel { image: model.image, ..model2 };
    let earlier3 = |other: Seq<char>| earlier2(other) || other == "image"@;
    lemma_read_next::<Basics>(
        fields2,
        model2,
        "image"@,
        written_text(model.image),
        model3,
        earlier2,
    );
    let fields4 = put_present(fields3, "email"@, written_text(model.email));
    let model4 = BasicsModel { email: model.email, ..model3 };
    let earlier4 = |other: Seq<char>| earlier3(other) || other == "email"@;
    lemma_read_next::<Basics>(
        fields3,
        model3,
        "email"@,
        written_text(model.email),
        model4,
        earlier3,
    );
    let fields5 = put_present(fields4, "phone"@, written_text(model.phone));
    let model5 = BasicsModel { phone: model.phone, ..model4 };
    let earlier5 = |other: Seq<char>| earlier4(other) || other == "phone"@;
    lemma_read_next::<Basics>(
        fields4,
        model4,
        "phone"@,
        written_text(model.phone),
        model5,
        earlier4,
    );
    let fields6 = put_present(fields5, "url"@, written_text(model.url));
    let model6 = BasicsModel { url: model.url, ..model5 };
    let earlier6 = |other: Seq<char>| earlier5(other) || other == "url"@;
    lemma_read_next::<Basics>(fields5, model5, "url"@, written_text(model.url), model6, earlier5);
    let fields7 = put_present(fields6, "summary"@, written_text(model.summary));
    let model7 = BasicsModel { summary: model.summary, ..model6 };
    let earlier7 = |other: Seq<char>| earlier6(other) || other == "summary"@;
    lemma_read_next::<Basics>(
        fields6,
        model6,
        "summary"@,
        written_text(model.summary),
        model7,
        earlier6,
    );
    let fields8 = put_present(fields7, "location"@, written_entity::<Location>(model.location));
    let model8 = BasicsModel { location: model.location, ..model7 };
    let earlier8 = |other: Seq<char>| earlier7(other) || other == "location"@;
    lemma_read_next::<Basics>(
        fields7,
        model7,
        "location"@,
        written_entity::<Location>(model.location),
        model8,
        earlier7,
    );
    let fields9 = put_present(fields8, "profiles"@, written_entities::<Profile>(model.profiles));
    let model9 = BasicsModel { profiles: model.profiles, ..model8 };
    let earlier9 = |other: Seq<char>| earlier8(other) || other == "profiles"@;
    lemma_read_next::<Basics>(
        fields8,
        model8,
        "profiles"@,
        written_entities::<Profile>(model.profiles),
        model9,
        earlier8,
    );
    lemma_read_extras::<Basics>(fields9, model9, model.additional_properties);
    assert(Basics::with_extras(model9, model.additional_properties) =~= model);
    assert(Basics::with_extras(model, Seq::empty()) =~= model9);
    assert(put_all(fields9, Seq::empty()) == fields9);
}

impl Document for WorkExperience {
    open spec fn blank() -> WorkExperienceModel {
        WorkExperienceModel::empty()
    }

    open spec fn knows(key: Seq<char>) -> bool {
        ||| key == "name"@
        ||| key == "location"@
        ||| key == "description"@
        ||| key == "position"@
        ||| key == "url"@
        ||| key == "startDate"@
        ||| key == "endDate"@
        ||| key == "summary"@
        ||| key == "highlights"@
    }

    open spec fn absorb(model: WorkExperienceModel, key: Seq<char>, value: JsonModel) -> Result<
        WorkExperienceModel,
        PathModel,
    > {
        if key == "name"@ {
            placed(
                under(key, read_text(value)),
                |found| WorkExperienceModel { name: found, ..model },
            )
        } else if key == "location"@ {
            placed(
                under(key, read_text(value)),
                |found| WorkExperienceModel { location: found, ..model },
            )
        } else if key == "description"@ {
            placed(
                under(key, read_text(value)),
                |found| WorkExperienceModel { description: found, ..model },
            )
        } else if key == "position"@ {
            placed(
                under(key, read_text(value)),
                |found| WorkExperienceModel { position: found, ..model },
            )
        } else if key == "url"@ {
            placed(under(key, read_uri(value)), |found| WorkExperienceModel { url: found, ..model })
        } else if key == "startDate"@ {
            placed(
                under(key, read_text(value)),
                |found| WorkExperienceModel { start_date: found, ..model },
            )
        } else if key == "endDate"@ {
            placed(
                under(key, read_text(value)),
                |found| WorkExperienceModel { end_date: found, ..model },
            )
        } else if key == "summary"@ {
            placed(
                under(key, read_text(value)),
                |found| WorkExperienceModel { summary: found, ..model },
            )
        } else if key == "highlights"@ {
            placed(
                under(key, read_text_list(value)),
                |found| WorkExperienceModel { highlights: found, ..model },
            )
        } else {
            Ok(Self::with_extras(model, put(model.additional_properties, key, value)))
        }
    }

    open spec fn fields_of(model: WorkExperienceModel) -> PropertyModel {
        let fields = Seq::<(Seq<char>, JsonModel)>::empty();
        let fields = put_text(fields, "name"@, model.name);
        let fields = put_text(fields, "location"@, model.location);
        let fields = put_text(fields, "description"@, model.description);
        let fields = put_text(fields, "position"@, model.position);
        let fields = put_text(fields, "url"@, model.url);
        let fields = put_text(fields, "startDate"@, model.start_date);
        let fields = put_text(fields, "endDate"@, model.end_date);
        let fields = put_text(fields, "summary"@, model.summary);
        let fields = put_text_list(fields, "highlights"@, model.highlights);
        put_all(fields, model.additional_properties)
    }

    open spec fn canonical(model: WorkExperienceModel) -> bool {
        &&& keys_unique(model.additional_properties)
        &&& forall|i: int|
            0 <= i < model.additional_properties.len() ==> !Self::knows(
                #[trigger] model.additional_properties[i].0,
            )
        &&& uri_is_canonical(model.url)
    }

    open spec fn extras(model: WorkExperienceModel) -> PropertyModel {
        model.additional_properties
    }

    open spec fn with_extras(model: WorkExperienceModel, extras: PropertyModel)
        -> WorkExperienceModel {
        WorkExperienceModel { additional_properties: extras, ..model }
    }

    fn start() -> (r: WorkExperience) {
        WorkExperience::new()
    }

    fn take(&mut self, key: &str, value: &JsonValue) -> (r: Result<(), DocumentError>) {
        if str_equal(key, "name") {
            self.name = text_field(key, value)?;
        } else if str_equal(key, "location") {
            self.location = text_field(key, value)?;
        } else if str_equal(key, "description") {
            self.description = text_field(key, value)?;
        } else if str_equal(key, "position") {
            self.position = text_field(key, value)?;
        } else if str_equal(key, "url") {
            self.url = uri_field(key, value)?;
        } else if str_equal(key, "startDate") {
            self.start_date = date_field(key, value)?;
        } else if str_equal(key, "endDate") {
            self.end_date = date_field(key, value)?;
        } else if str_equal(key, "summary") {
            self.summary = text_field(key, value)?;
        } else if str_equal(key, "highlights") {
            self.highlights = text_list_field(key, value)?;
        } else {
            self.additional_properties.insert(String::from_str(key), value.clone());
        }
        Ok(())
    }

    fn to_fields(&self) -> (r: PropertyMap) {
        let mut fields = PropertyMap::new();
        insert_text(&mut fields, "name", &self.name);
        insert_text(&mut fields, "location", &self.location);
        insert_text(&mut fields, "description", &self.description);
        insert_text(&mut fields, "position", &self.position);
        insert_uri(&mut fields, "url", &self.url);
        insert_date(&mut fields, "startDate", &self.start_date);
        insert_date(&mut fields, "endDate", &self.end_date);
        insert_text(&mut fields, "summary", &self.summary);
        insert_text_list(&mut fields, "highlights", &self.highlights);
        insert_all(&mut fields, &self.additional_properties);
        fields
    }

    proof fn lemma_absorb_extras(model: WorkExperienceModel, key: Seq<char>, value: JsonModel) {
    }

    proof fn lemma_with_extras(
        model: WorkExperienceModel,
        first: PropertyModel,
        second: PropertyModel,
    ) {
    }
}

/// How the names of the fields of a position are spelled, as far as it
/// takes to tell them apart.
proof fn lemma_work_experience_names()
    ensures
        "name"@.len() == 4,
        "location"@.len() == 8,
        "description"@.len() == 11,
        "position"@.len() == 8,
        "url"@.len() == 3,
        "startDate"@.len() == 9,
        "endDate"@.len() == 7,
        "summary"@.len() == 7,
        "highlights"@.len() == 10,
        "location"@[0] == 'l',
        "position"@[0] == 'p',
        "endDate"@[0] == 'e',
        "summary"@[0] == 's',
{
    reveal_strlit("name");
    reveal_strlit("location");
    reveal_strlit("description");
    reveal_strlit("position");
    reveal_strlit("url");
    reveal_strlit("startDate");
    reveal_strlit("endDate");
    reveal_strlit("summary");
    reveal_strlit("highlights");
}

/// Reading a field that was written for a position puts it back in its place.
proof fn lemma_work_experience_reads_written(model: WorkExperienceModel)
    requires
        WorkExperience::canonical(model),
    ensures
        model.name is Some ==> forall|before: WorkExperienceModel| #[trigger]
            WorkExperience::absorb(
                before,
                "name"@,
                written_text(model.name)->0,
            ) == Ok::<WorkExperienceModel, PathModel>(
                WorkExperienceModel { name: model.name, ..before },
            ),
        model.location is Some ==> forall|before: WorkExperienceModel| #[trigger]
            WorkExperience::absorb(
                before,
                "location"@,
                written_text(model.location)->0,
            ) == Ok::<WorkExperienceModel, PathModel>(
                WorkExperienceModel { location: model.location, ..before },
            ),
        model.description is Some ==> forall|before: WorkExperienceModel| #[trigger]
            WorkExperience::absorb(
                before,
                "description"@,
                written_text(model.description)->0,
            ) == Ok::<WorkExperienceModel, PathModel>(
                WorkExperienceModel { description: model.description, ..before },
            ),
        model.position is Some ==> forall|before: WorkExperienceModel| #[trigger]
            WorkExperience::absorb(
                before,
                "position"@,
                written_text(model.position)->0,
            ) == Ok::<WorkExperienceModel, PathModel>(
                WorkExperienceModel { position: model.position, ..before },
            ),
        model.url is Some ==> forall|before: WorkExperienceModel| #[trigger]
            WorkExperience::absorb(
                before,
                "url"@,
                written_text(model.url)->0,
            ) == Ok::<WorkExperienceModel, PathModel>(
                WorkExperienceModel { url: model.url, ..before },
            ),
        model.start_date is Some ==> forall|before: WorkExperienceModel| #[trigger]
            WorkExperience::absorb(
                before,
                "startDate"@,
                written_text(model.start_date)->0,
            ) == Ok::<WorkExperienceModel, PathModel>(
                WorkExperienceModel { start_date: model.start_date, ..before },
            ),
        model.end_date is Some ==> forall|before: WorkExperienceModel| #[trigger]
            WorkExperience::absorb(
                before,
                "endDate"@,
                written_text(model.end_date)->0,
            ) == Ok::<WorkExperienceModel, PathModel>(
                WorkExperienceModel { end_date: model.end_date, ..before },
            ),
        model.summary is Some ==> forall|before: WorkExperienceModel| #[trigger]
            WorkExperience::absorb(
                before,
                "summary"@,
                written_text(model.summary)->0,
            ) == Ok::<WorkExperienceModel, PathModel>(
                WorkExperienceModel { summary: model.summary, ..before },
            ),
        model.highlights is Some ==> forall|before: WorkExperienceModel| #[trigger]
            WorkExperience::absorb(
                before,
                "highlights"@,
                written_text_list(model.highlights)->0,
            ) == Ok::<WorkExperienceModel, PathModel>(
                WorkExperienceModel { highlights: model.highlights, ..before },
            ),
{
    lemma_work_experience_names();
    if let Some(texts) = model.highlights {
        lemma_read_texts_round_trip(texts);
    }
}

/// Writing and reading back a position that is canonical gives it again; that
/// holds in particular of one that has modelled fields only. What is kept
/// beside the modelled fields is written behind them, as it is.
pub proof fn lemma_work_experience_round_trip(model: WorkExperienceModel)
    requires
        WorkExperience::canonical(model),
    ensures
        reads_back::<WorkExperience>(model),
        writes_extras_last::<WorkExperience>(model),
{
    lemma_work_experience_names();
    lemma_work_experience_reads_written(model);
    let fields0 = Seq::<(Seq<char>, JsonModel)>::empty();
    let model0 = WorkExperienceModel::empty();
    let earlier0 = |other: Seq<char>| false;
    let fields1 = put_present(fields0, "name"@, written_text(model.name));
    let model1 = WorkExperienceModel { name: model.name, ..model0 };
    let earlier1 = |other: Seq<char>| earlier0(other) || other == "name"@;
    lemma_read_next::<WorkExperience>(
        fields0,
        model0,
        "name"@,
        written_text(model.name),
        model1,
        earlier0,
    );
    let fields2 = put_present(fields1, "location"@, written_text(model.location));
    let model2 = WorkExperienceModel { location: model.location, ..model1 };
    let earlier2 = |other: Seq<char>| earlier1(other) || other == "location"@;
    lemma_read_next::<WorkExperience>(
        fields1,
        model1,
        "location"@,
        written_text(model.location),
        model2,
        earlier1,
    );
    let fields3 = put_present(fields2, "description"@, written_text(model.description));
    let model3 = WorkExperienceModel { description: model.description, ..model2 };
    let earlier3 = |other: Seq<char>| earlier2(other) || other == "description"@;
    lemma_read_next::<WorkExperience>(
        fields2,
        model2,
        "description"@,
        written_text(model.description),
        model3,
        earlier2,
    );
    let fields4 = put_present(fields3, "position"@, written_text(model.position));
    let model4 = WorkExperienceModel { position: model.position, ..model3 };
    let earlier4 = |other: Seq<char>| earlier3(other) || other == "position"@;
    lemma_read_next::<WorkExperience>(
        fields3,
        model3,
        "position"@,
        written_text(model.position),
        model4,
        earlier3,
    );
    let fields5 = put_present(fields4, "url"@, written_text(model.url));
    let model5 = WorkExperienceModel { url: model.url, ..model4 };
    let earlier5 = |other: Seq<char>| earlier4(other) || other == "url"@;
    lemma_read_next::<WorkExperience>(
        fields4,
        model4,
        "url"@,
        written_text(model.url),
        model5,
        earlier4,
    );
    let fields6 = put_present(fields5, "startDate"@, written_text(model.start_date));
    let model6 = WorkExperienceModel { start_date: model.start_date, ..model5 };
    let earlier6 = |other: Seq<char>| earlier5(other) || other == "startDate"@;
    lemma_read_next::<WorkExperience>(
        fields5,
        model5,
        "startDate"@,
        written_text(model.start_date),
        model6,
        earlier5,
    );
    let fields7 = put_present(fields6, "endDate"@, written_text(model.end_date));
    let model7 = WorkExperienceModel { end_date: model.end_date, ..model6 };
    let earlier7 = |other: Seq<char>| earlier6(other) || other == "endDate"@;
    lemma_read_next::<WorkExperience>(
        fields6,
        model6,
        "endDate"@,
        written_text(model.end_date),
        model7,
        earlier6,
    );
    let fields8 = put_present(fields7, "summary"@, written_text(model.summary));
    let model8 = WorkExperienceModel { summary: model.summary, ..model7 };
    let earlier8 = |other: Seq<char>| earlier7(other) || other == "summary"@;
    lemma_read_next::<WorkExperience>(
        fields7,
        model7,
        "summary"@,
        written_text(model.summary),
        model8,
        earlier7,
    );
    let fields9 = put_present(fields8, "highlights"@, written_text_list(model.highlights));
    let model9 = WorkExperienceModel { highlights: model.highlights, ..model8 };
    let earlier9 = |other: Seq<char>| earlier8(other) || other == "highlights"@;
    lemma_read_next::<WorkExperience>(
        fields8,
        model8,
        "highlights"@,
        written_text_list(model.highlights),
        model9,
        earlier8,
    );
    lemma_read_extras::<WorkExperience>(fields9, model9, model.additional_properties);
    assert(WorkExperience::with_extras(model9, model.additional_properties) =~= model);
    assert(WorkExperience::with_extras(model, Seq::empty()) =~= model9);
    assert(put_all(fields9, Seq::empty()) == fields9);
}

impl Document for VolunteerExperience {
    open spec fn blank() -> VolunteerExperienceModel {
        VolunteerExperienceModel::empty()
    }

    open spec fn knows(key: Seq<char>) -> bool {
        ||| key == "organization"@
        ||| key == "position"@
        ||| key == "url"@
        ||| key == "startDate"@
        ||| key == "endDate"@
        ||| key == "summary"@
        ||| key == "highlights"@
    }

    open spec fn absorb(model: VolunteerExperienceModel, key: Seq<char>, value: JsonModel)
        -> Result<VolunteerExperienceModel, PathModel> {
        if key == "organization"@ {
            placed(
                under(key, read_text(value)),
                |found| VolunteerExperienceModel { organization: found, ..model },
            )
        } else if key == "position"@ {
            placed(
                under(key, read_text(value)),
                |found| VolunteerExperienceModel { position: found, ..model },
            )
        } else if key == "url"@ {
            placed(
                under(key, read_uri(value)),
                |found| VolunteerExperienceModel { url: found, ..model },
            )
        } else if key == "startDate"@ {
            placed(
                under(key, read_text(value)),
                |found| VolunteerExperienceModel { start_date: found, ..model },
            )
        } else if key == "endDate"@ {
            placed(
                under(key, read_text(value)),
                |found| VolunteerExperienceModel { end_date: found, ..model },
            )
        } else if key == "summary"@ {
            placed(
                under(key, read_text(value)),
                |found| VolunteerExperienceModel { summary: found, ..model },
            )
        } else if key == "highlights"@ {
            placed(
                under(key, read_text_list(value)),
                |found| VolunteerExperienceModel { highlights: found, ..model },
            )
        } else {
            Ok(Self::with_extras(model, put(model.additional_properties, key, value)))
        }
    }

    open spec fn fields_of(model: VolunteerExperienceModel) -> PropertyModel {
        let fields = Seq::<(Seq<char>, JsonModel)>::empty();
        let fields = put_text(fields, "organization"@, model.organization);
        let fields = put_text(fields, "position"@, model.position);
        let fields = put_text(fields, "url"@, model.url);
        let fields = put_text(fields, "startDate"@, model.start_date);
        let fields = put_text(fields, "endDate"@, model.end_date);
        let fields = put_text(fields, "summary"@, model.summary);
        let fields = put_text_list(fields, "highlights"@, model.highlights);
        put_all(fields, model.additional_properties)
    }

    open spec fn canonical(model: VolunteerExperienceModel) -> bool {
        &&& keys_unique(model.additional_properties)
        &&& forall|i: int|
            0 <= i < model.additional_properties.len() ==> !Self::knows(
                #[trigger] model.additional_properties[i].0,
            )
        &&& uri_is_canonical(model.url)
    }

    open spec fn extras(model: VolunteerExperienceModel) -> PropertyModel {
        model.additional_properties
    }

    open spec fn with_extras(model: VolunteerExperienceModel, extras: PropertyModel)
        -> VolunteerExperienceModel {
        VolunteerExperienceModel { additional_properties: extras, ..model }
    }

    fn start() -> (r: VolunteerExperience) {
        VolunteerExperience::new()
    }

    fn take(&mut self, key: &str, value: &JsonValue) -> (r: Result<(), DocumentError>) {
        if str_equal(key, "organization") {
            self.organization = text_field(key, value)?;
        } else if str_equal(key, "position") {
            self.position = text_field(key, value)?;
        } else if str_equal(key, "url") {
            self.url = uri_field(key, value)?;
        } else if str_equal(key, "startDate") {
            self.start_date = date_field(key, value)?;
        } else if str_equal(key, "endDate") {
            self.end_date = date_field(key, value)?;
        } else if str_equal(key, "summary") {
            self.summary = text_field(key, value)?;
        } else if str_equal(key, "highlights") {
            self.highlights = text_list_field(key, value)?;
        } else {
            self.additional_properties.insert(String::from_str(key), value.clone());
        }
        Ok(())
    }

    fn to_fields(&self) -> (r: PropertyMap) {
        let mut fields = PropertyMap::new();
        insert_text(&mut fields, "organization", &self.organization);
        insert_text(&mut fields, "position", &self.position);
        insert_uri(&mut fields, "url", &self.url);
        insert_date(&mut fields, "startDate", &self.start_date);
        insert_date(&mut fields, "endDate", &self.end_date);
        insert_text(&mut fields, "summary", &self.summary);
        insert_text_list(&mut fields, "highlights", &self.highlights);
        insert_all(&mut fields, &self.additional_properties);
        fields
    }

    proof fn lemma_absorb_extras(
        model: VolunteerExperienceModel,
        key: Seq<char>,
        value: JsonModel,
    ) {
    }

    proof fn lemma_with_extras(
        model: VolunteerExperienceModel,
        first: PropertyModel,
        second: PropertyModel,
    ) {
    }
}

/// How the names of the fields of voluntary work are spelled, as far as it
/// takes to tell them apart.
proof fn lemma_volunteer_experience_names()
    ensures
        "organization"@.len() == 12,
        "position"@.len() == 8,
        "url"@.len() == 3,
        "startDate"@.len() == 9,
        "endDate"@.len() == 7,
        "summary"@.len() == 7,
        "highlights"@.len() == 10,
        "endDate"@[0] == 'e',
        "summary"@[0] == 's',
{
    reveal_strlit("organization");
    reveal_strlit("position");
    reveal_strlit("url");
    reveal_strlit("startDate");
    reveal_strlit("endDate");
    reveal_strlit("summary");
    reveal_strlit("highlights");
}

/// Reading a field that was written for voluntary work puts it back in its place.
proof fn lemma_volunteer_experience_reads_written(model: VolunteerExperienceModel)
    requires
        VolunteerExperience::canonical(model),
    ensures
        model.organization is Some ==> forall|before: VolunteerExperienceModel| #[trigger]
            VolunteerExperience::absorb(
                before,
                "organization"@,
                written_text(model.organization)->0,
            ) == Ok::<VolunteerExperienceModel, PathModel>(
                VolunteerExperienceModel { organization: model.organization, ..before },
            ),
        model.position is Some ==> forall|before: VolunteerExperienceModel| #[trigger]
            VolunteerExperience::absorb(
                before,
                "position"@,
                written_text(model.position)->0,
            ) == Ok::<VolunteerExperienceModel, PathModel>(
                VolunteerExperienceModel { position: model.position, ..before },
            ),
        model.url is Some ==> forall|before: VolunteerExperienceModel| #[trigger]
            VolunteerExperience::absorb(
                before,
                "url"@,
                written_text(model.url)->0,
            ) == Ok::<VolunteerExperienceModel, PathModel>(
                VolunteerExperienceModel { url: model.url, ..before },
            ),
        model.start_date is Some ==> forall|before: VolunteerExperienceModel| #[trigger]
            VolunteerExperience::absorb(
                before,
                "startDate"@,
                written_text(model.start_date)->0,
            ) == Ok::<VolunteerExperienceModel, PathModel>(
                VolunteerExperienceModel { start_date: model.start_date, ..before },
            ),
        model.end_date is Some ==> forall|before: VolunteerExperienceModel| #[trigger]
            VolunteerExperience::absorb(
                before,
                "endDate"@,
                written_text(model.end_date)->0,
            ) == Ok::<VolunteerExperienceModel, PathModel>(
                VolunteerExperienceModel { end_date: model.end_date, ..before },
            ),
        model.summary is Some ==> forall|before: VolunteerExperienceModel| #[trigger]
            VolunteerExperience::absorb(
                before,
                "summary"@,
                written_text(model.summary)->0,
            ) == Ok::<VolunteerExperienceModel, PathModel>(
                VolunteerExperienceModel { summary: model.summary, ..before },
            ),
        model.highlights is Some ==> forall|before: VolunteerExperienceModel| #[trigger]
            VolunteerExperience::absorb(
                before,
                "highlights"@,
                written_text_list(model.highlights)->0,
            ) == Ok::<VolunteerExperienceModel, PathModel>(
                VolunteerExperienceModel { highlights: model.highlights, ..before },
            ),
{
    lemma_volunteer_experience_names();
    if let Some(texts) = model.highlights {
        lemma_read_texts_round_trip(texts);
    }
}

/// Writing and reading back voluntary work that is canonical gives it again; that
/// holds in particular of one that has modelled fields only. What is kept
/// beside the modelled fields is written behind them, as it is.
pub proof fn lemma_volunteer_experience_round_trip(model: VolunteerExperienceModel)
    requires
        VolunteerExperience::canonical(model),
    ensures
        reads_back::<VolunteerExperience>(model),
        writes_extras_last::<VolunteerExperience>(model),
{
    lemma_volunteer_experience_names();
    lemma_volunteer_experience_reads_written(model);
    let fields0 = Seq::<(Seq<char>, JsonModel)>::empty();
    let model0 = VolunteerExperienceModel::empty();
    let earlier0 = |other: Seq<char>| false;
    let fields1 = put_present(fields0, "organization"@, written_text(model.organization));
    let model1 = VolunteerExperienceModel { organization: model.organization, ..model0 };
    let earlier1 = |other: Seq<char>| earlier0(other) || other == "organization"@;
    lemma_read_next::<VolunteerExperience>(
        fields0,
        model0,
        "organization"@,
        written_text(model.organization),
        model1,
        earlier0,
    );
    let fields2 = put_present(fields1, "position"@, written_text(model.position));
    let model2 = VolunteerExperienceModel { position: model.position, ..model1 };
    let earlier2 = |other: Seq<char>| earlier1(other) || other == "position"@;
    lemma_read_next::<VolunteerExperience>(
        fields1,
        model1,
        "position"@,
        written_text(model.position),
        model2,
        earlier1,
    );
    let fields3 = put_present(fields2, "url"@, written_text(model.url));
    let model3 = VolunteerExperienceModel { url: model.url, ..model2 };
    let earlier3 = |other: Seq<char>| earlier2(other) || other == "url"@;
    lemma_read_next::<VolunteerExperience>(
        fields2,
        model2,
        "url"@,
        written_text(model.url),
        model3,
        earlier2,
    );
    let fields4 = put_present(fields3, "startDate"@, written_text(model.start_date));
    let model4 = VolunteerExperienceModel { start_date: model.start_date, ..model3 };
    let earlier4 = |other: Seq<char>| earlier3(other) || other == "startDate"@;
    lemma_read_next::<VolunteerExperience>(
        fields3,
        model3,
        "startDate"@,
        written_text(model.start_date),
        model4,
        earlier3,
    );
    let fields5 = put_present(fields4, "endDate"@, written_text(model.end_date));
    let model5 = VolunteerExperienceModel { end_date: model.end_date, ..model4 };
    let earlier5 = |other: Seq<char>| earlier4(other) || other == "endDate"@;
    lemma_read_next::<VolunteerExperience>(
        fields4,
        model4,
        "endDate"@,
        written_text(model.end_date),
        model5,
        earlier4,
    );
    let fields6 = put_present(fields5, "summary"@, written_text(model.summary));
    let model6 = VolunteerExperienceModel { summary: model.summary, ..model5 };
    let earlier6 = |other: Seq<char>| earlier5(other) || other == "summary"@;
    lemma_read_next::<VolunteerExperience>(
        fields5,
        model5,
        "summary"@,
        written_text(model.summary),
        model6,
        earlier5,
    );
    let fields7 = put_present(fields6, "highlights"@, written_text_list(model.highlights));
    let model7 = VolunteerExperienceModel { highlights: model.highlights, ..model6 };
    let earlier7 = |other: Seq<char>| earlier6(other) || other == "highlights"@;
    lemma_read_next::<VolunteerExperience>(
        fields6,
        model6,
        "highlights"@,
        written_text_list(model.highlights),
        model7,
        earlier6,
    );
    lemma_read_extras::<VolunteerExperience>(fields7, model7, model.additional_properties);
    assert(VolunteerExperience::with_extras(model7, model.additional_properties) =~= model);
    assert(VolunteerExperience::with_extras(model, Seq::empty()) =~= model7);
    assert(put_all(fields7, Seq::empty()) == fields7);
}

impl Document for Education {
    open spec fn blank() -> EducationModel {
        EducationModel::empty()
    }

    open spec fn knows(key: Seq<char>) -> bool {
        ||| key == "institution"@
        ||| key == "url"@
        ||| key == "area"@
        ||| key == "studyType"@
        ||| key == "startDate"@
        ||| key == "endDate"@
        ||| key == "score"@
        ||| key == "courses"@
    }

    open spec fn absorb(model: EducationModel, key: Seq<char>, value: JsonModel) -> Result<
        EducationModel,
        PathModel,
    > {
        if key == "institution"@ {
            placed(
                under(key, read_text(value)),
                |found| EducationModel { institution: found, ..model },
            )
        } else if key == "url"@ {
            placed(under(key, read_uri(value)), |found| EducationModel { url: found, ..model })
        } else if key == "area"@ {
            placed(under(key, read_text(value)), |found| EducationModel { area: found, ..model })
        } else if key == "studyType"@ {
            placed(
                under(key, read_text(value)),
                |found| EducationModel { study_type: found, ..model },
            )
        } else if key == "startDate"@ {
            placed(
                under(key, read_text(value)),
                |found| EducationModel { start_date: found, ..model },
            )
        } else if key == "endDate"@ {
            placed(
                under(key, read_text(value)),
                |found| EducationModel { end_date: found, ..model },
            )
        } else if key == "score"@ {
            placed(under(key, read_text(value)), |found| EducationModel { score: found, ..model })
        } else if key == "courses"@ {
            placed(
                under(key, read_text_list(value)),
                |found| EducationModel { courses: found, ..model },
            )
        } else {
            Ok(Self::with_extras(model, put(model.additional_properties, key, value)))
        }
    }

    open spec fn fields_of(model: EducationModel) -> PropertyModel {
        let fields = Seq::<(Seq<char>, JsonModel)>::empty();
        let fields = put_text(fields, "institution"@, model.institution);
        let fields = put_text(fields, "url"@, model.url);
        let fields = put_text(fields, "area"@, model.area);
        let fields = put_text(fields, "studyType"@, model.study_type);
        let fields = put_text(fields, "startDate"@, model.start_date);
        let fields = put_text(fields, "endDate"@, model.end_date);
        let fields = put_text(fields, "score"@, model.score);
        let fields = put_text_list(fields, "courses"@, model.courses);
        put_all(fields, model.additional_properties)
    }

    open spec fn canonical(model: EducationModel) -> bool {
        &&& keys_unique(model.additional_properties)
        &&& forall|i: int|
            0 <= i < model.additional_properties.len() ==> !Self::knows(
                #[trigger] model.additional_properties[i].0,
            )
        &&& uri_is_canonical(model.url)
    }

    open spec fn extras(model: EducationModel) -> PropertyModel {
        model.additional_properties
    }

    open spec fn with_extras(model: EducationModel, extras: PropertyModel) -> EducationModel {
        EducationModel { additional_properties: extras, ..model }
    }

    fn start() -> (r: Education) {
        Education::new()
    }

    fn take(&mut self, key: &str, value: &JsonValue) -> (r: Result<(), DocumentError>) {
        if str_equal(key, "institution") {
            self.institution = text_field(key, value)?;
        } else if str_equal(key, "url") {
            self.url = uri_field(key, value)?;
        } else if str_equal(key, "area") {
            self.area = text_field(key, value)?;
        } else if str_equal(key, "studyType") {
            self.study_type = text_field(key, value)?;
        } else if str_equal(key, "startDate") {
            self.start_date = date_field(key, value)?;
        } else if str_equal(key, "endDate") {
            self.end_date = date_field(key, value)?;
        } else if str_equal(key, "score") {
            self.score = text_field(key, value)?;
        } else if str_equal(key, "courses") {
            self.courses = text_list_field(key, value)?;
        } else {
            self.additional_properties.insert(String::from_str(key), value.clone());
        }
        Ok(())
    }

    fn to_fields(&self) -> (r: PropertyMap) {
        let mut fields = PropertyMap::new();
        insert_text(&mut fields, "institution", &self.institution);
        insert_uri(&mut fields, "url", &self.url);
        insert_text(&mut fields, "area", &self.area);
        insert_text(&mut fields, "studyType", &self.study_type);
        insert_date(&mut fields, "startDate", &self.start_date);
        insert_date(&mut fields, "endDate", &self.end_date);
        insert_text(&mut fields, "score", &self.score);
        insert_text_list(&mut fields, "courses", &self.courses);
        insert_all(&mut fields, &self.additional_properties);
        fields
    }

    proof fn lemma_absorb_extras(model: EducationModel, key: Seq<char>, value: JsonModel) {
    }

    proof fn lemma_with_extras(model: EducationModel, first: PropertyModel, second: PropertyModel) {
    }
}

/// How the names of the fields of a course of study are spelled, as far as it
/// takes to tell them apart.
proof fn lemma_education_names()
    ensures
        "institution"@.len() == 11,
        "url"@.len() == 3,
        "area"@.len() == 4,
        "studyType"@.len() == 9,
        "startDate"@.len() == 9,
        "endDate"@.len() == 7,
        "score"@.len() == 5,
        "courses"@.len() == 7,
        "studyType"@[2] == 'u',
        "startDate"@[2] == 'a',
        "endDate"@[0] == 'e',
        "courses"@[0] == 'c',
{
    reveal_strlit("institution");
    reveal_strlit("url");
    reveal_strlit("area");
    reveal_strlit("studyType");
    reveal_strlit("startDate");
    reveal_strlit("endDate");
    reveal_strlit("score");
    reveal_strlit("courses");
}

/// Reading a field that was written for a course of study puts it back in its place.
proof fn lemma_education_reads_written(model: EducationModel)
    requires
        Education::canonical(model),
    ensures
        model.institution is Some ==> forall|before: EducationModel| #[trigger]
            Education::absorb(
                before,
                "institution"@,
                written_text(model.institution)->0,
            ) == Ok::<EducationModel, PathModel>(
                EducationModel { institution: model.institution, ..before },
            ),
        model.url is Some ==> forall|before: EducationModel| #[trigger]
            Education::absorb(
                before,
                "url"@,
                written_text(model.url)->0,
            ) == Ok::<EducationModel, PathModel>(
                EducationModel { url: model.url, ..before },
            ),
        model.area is Some ==> forall|before: EducationModel| #[trigger]
            Education::absorb(
                before,
                "area"@,
                written_text(model.area)->0,
            ) == Ok::<EducationModel, PathModel>(
                EducationModel { area: model.area, ..before },
            ),
        model.study_type is Some ==> forall|before: EducationModel| #[trigger]
            Education::absorb(
                before,
                "studyType"@,
                written_text(model.study_type)->0,
            ) == Ok::<EducationModel, PathModel>(
                EducationModel { study_type: model.study_type, ..before },
            ),
        model.start_date is Some ==> forall|before: EducationModel| #[trigger]
            Education::absorb(
                before,
                "startDate"@,
                written_text(model.start_date)->0,
            ) == Ok::<EducationModel, PathModel>(
                EducationModel { start_date: model.start_date, ..before },
            ),
        model.end_date is Some ==> forall|before: EducationModel| #[trigger]
            Education::absorb(
                before,
                "endDate"@,
                written_text(model.end_date)->0,
            ) == Ok::<EducationModel, PathModel>(
                EducationModel { end_date: model.end_date, ..before },
            ),
        model.score is Some ==> forall|before: EducationModel| #[trigger]
            Education::absorb(
                before,
                "score"@,
                written_text(model.score)->0,
            ) == Ok::<EducationModel, PathModel>(
                EducationModel { score: model.score, ..before },
            ),
        model.courses is Some ==> forall|before: EducationModel| #[trigger]
            Education::absorb(
                before,
                "courses"@,
                written_text_list(model.courses)->0,
            ) == Ok::<EducationModel, PathModel>(
                EducationModel { courses: model.courses, ..before },
            ),
{
    lemma_education_names();
    if let Some(texts) = model.courses {
        lemma_read_texts_round_trip(texts);
    }
}

/// Writing and reading back a course of study that is canonical gives it again; that
/// holds in particular of one that has modelled fields only. What is kept
/// beside the modelled fields is written behind them, as it is.
pub proof fn lemma_education_round_trip(model: EducationModel)
    requires
        Education::canonical(model),
    ensures
        reads_back::<Education>(model),
        writes_extras_last::<Education>(model),
{
    lemma_education_names();
    lemma_education_reads_written(model);
    let fields0 = Seq::<(Seq<char>, JsonModel)>::empty();
    let model0 = EducationModel::empty();
    let earlier0 = |other: Seq<char>| false;
    let fields1 = put_present(fields0, "institution"@, written_text(model.institution));
    let model1 = EducationModel { institution: model.institution, ..model0 };
    let earlier1 = |other: Seq<char>| earlier0(other) || other == "institution"@;
    lemma_read_next::<Education>(
        fields0,
        model0,
        "institution"@,
        written_text(model.institution),
        model1,
        earlier0,
    );
    let fields2 = put_present(fields1, "url"@, written_text(model.url));
    let model2 = EducationModel { url: model.url, ..model1 };
    let earlier2 = |other: Seq<char>| earlier1(other) || other == "url"@;
    lemma_read_next::<Education>(
        fields1,
        model1,
        "url"@,
        written_text(model.url),
        model2,
        earlier1,
    );
    let fields3 = put_present(fields2, "area"@, written_text(model.area));
    let model3 = EducationModel { area: model.area, ..model2 };
    let earlier3 = |other: Seq<char>| earlier2(other) || other == "area"@;
    lemma_read_next::<Education>(
        fields2,
        model2,
        "area"@,
        written_text(model.area),
        model3,
        earlier2,
    );
    let fields4 = put_present(fields3, "studyType"@, written_text(model.study_type));
    let model4 = EducationModel { study_type: model.study_type, ..model3 };
    let earlier4 = |other: Seq<char>| earlier3(other) || other == "studyType"@;
    lemma_read_next::<Education>(
        fields3,
        model3,
        "studyType"@,
        written_text(model.study_type),
        model4,
        earlier3,
    );
    let fields5 = put_present(fields4, "startDate"@, written_text(model.start_date));
    let model5 = EducationModel { start_date: model.start_date, ..model4 };
    let earlier5 = |other: Seq<char>| earlier4(other) || other == "startDate"@;
    lemma_read_next::<Education>(
        fields4,
        model4,
        "startDate"@,
        written_text(model.start_date),
        model5,
        earlier4,
    );
    let fields6 = put_present(fields5, "endDate"@, written_text(model.end_date));
    let model6 = EducationModel { end_date: model.end_date, ..model5 };
    let earlier6 = |other: Seq<char>| earlier5(other) || other == "endDate"@;
    lemma_read_next::<Education>(
        fields5,
        model5,
        "endDate"@,
        written_text(model.end_date),
        model6,
        earlier5,
    );
    let fields7 = put_present(fields6, "score"@, written_text(model.score));
    let model7 = EducationModel { score: model.score, ..model6 };
    let earlier7 = |other: Seq<char>| earlier6(other) || other == "score"@;
    lemma_read_next::<Education>(
        fields6,
        model6,
        "score"@,
        written_text(model.score),
        model7,
        earlier6,
    );
    let fields8 = put_present(fields7, "courses"@, written_text_list(model.courses));
    let model8 = EducationModel { courses: model.courses, ..model7 };
    let earlier8 = |other: Seq<char>| earlier7(other) || other == "courses"@;
    lemma_read_next::<Education>(
        fields7,
        model7,
        "courses"@,
        written_text_list(model.courses),
        model8,
        earlier7,
    );
    lemma_read_extras::<Education>(fields8, model8, model.additional_properties);
    assert(Education::with_extras(model8, model.additional_properties) =~= model);
    assert(Education::with_extras(model, Seq::empty()) =~= model8);
    assert(put_all(fields8, Seq::empty()) == fields8);
}

impl Document for Award {
    open spec fn blank() -> AwardModel {
        AwardModel::empty()
    }

    open spec fn knows(key: Seq<char>) -> bool {
        ||| key == "title"@
        ||| key == "date"@
        ||| key == "awarder"@
        ||| key == "summary"@
    }

    open spec fn absorb(model: AwardModel, key: Seq<char>, value: JsonModel) -> Result<
        AwardModel,
        PathModel,
    > {
        if key == "title"@ {
            placed(under(key, read_text(value)), |found| AwardModel { title: found, ..model })
        } else if key == "date"@ {
            placed(under(key, read_text(value)), |found| AwardModel { date: found, ..model })
        } else if key == "awarder"@ {
            placed(under(key, read_text(value)), |found| AwardModel { awarder: found, ..model })
        } else if key == "summary"@ {
            placed(under(key, read_text(value)), |found| AwardModel { summary: found, ..model })
        } else {
            Ok(Self::with_extras(model, put(model.additional_properties, key, value)))
        }
    }

    open spec fn fields_of(model: AwardModel) -> PropertyModel {
        let fields = Seq::<(Seq<char>, JsonModel)>::empty();
        let fields = put_text(fields, "title"@, model.title);
        let fields = put_text(fields, "date"@, model.date);
        let fields = put_text(fields, "awarder"@, model.awarder);
        let fields = put_text(fields, "summary"@, model.summary);
        put_all(fields, model.additional_properties)
    }

    open spec fn canonical(model: AwardModel) -> bool {
        &&& keys_unique(model.additional_properties)
        &&& forall|i: int|
            0 <= i < model.additional_properties.len() ==> !Self::knows(
                #[trigger] model.additional_properties[i].0,
            )
    }

    open spec fn extras(model: AwardModel) -> PropertyModel {
        model.additional_properties
    }

    open spec fn with_extras(model: AwardModel, extras: PropertyModel) -> AwardModel {
        AwardModel { additional_properties: extras, ..model }
    }

    fn start() -> (r: Award) {
        Award::new()
    }

    fn take(&mut self, key: &str, value: &JsonValue) -> (r: Result<(), DocumentError>) {
        if str_equal(key, "title") {
            self.title = text_field(key, value)?;
        } else if str_equal(key, "date") {
            self.date = date_field(key, value)?;
        } else if str_equal(key, "awarder") {
            self.awarder = text_field(key, value)?;
        } else if str_equal(key, "summary") {
            self.summary = text_field(key, value)?;
        } else {
            self.additional_properties.insert(String::from_str(key), value.clone());
        }
        Ok(())
    }

    fn to_fields(&self) -> (r: PropertyMap) {
        let mut fields = PropertyMap::new();
        insert_text(&mut fields, "title", &self.title);
        insert_date(&mut fields, "date", &self.date);
        insert_text(&mut fields, "awarder", &self.awarder);
        insert_text(&mut fields, "summary", &self.summary);
        insert_all(&mut fields, &self.additional_properties);
        fields
    }

    proof fn lemma_absorb_extras(model: AwardModel, key: Seq<char>, value: JsonModel) {
    }

    proof fn lemma_with_extras(model: AwardModel, first: PropertyModel, second: PropertyModel) {
    }
}

/// How the names of the fields of an award are spelled, as far as it
/// takes to tell them apart.
proof fn lemma_award_names()
    ensures
        "title"@.len() == 5,
        "date"@.len() == 4,
        "awarder"@.len() == 7,
        "summary"@.len() == 7,
        "awarder"@[0] == 'a',
        "summary"@[0] == 's',
{
    reveal_strlit("title");
    reveal_strlit("date");
    reveal_strlit("awarder");
    reveal_strlit("summary");
}

/// Reading a field that was written for an award puts it back in its place.
proof fn lemma_award_reads_written(model: AwardModel)
    requires
        Award::canonical(model),
    ensures
        model.title is Some ==> forall|before: AwardModel| #[trigger]
            Award::absorb(
                before,
                "title"@,
                written_text(model.title)->0,
            ) == Ok::<AwardModel, PathModel>(
                AwardModel { title: model.title, ..before },
            ),
        model.date is Some ==> forall|before: AwardModel| #[trigger]
            Award::absorb(
                before,
                "date"@,
                written_text(model.date)->0,
            ) == Ok::<AwardModel, PathModel>(
                AwardModel { date: model.date, ..before },
            ),
        model.awarder is Some ==> forall|before: AwardModel| #[trigger]
            Award::absorb(
                before,
                "awarder"@,
                written_text(model.awarder)->0,
            ) == Ok::<AwardModel, PathModel>(
                AwardModel { awarder: model.awarder, ..before },
            ),
        model.summary is Some ==> forall|before: AwardModel| #[trigger]
            Award::absorb(
                before,
                "summary"@,
                written_text(model.summary)->0,
            ) == Ok::<AwardModel, PathModel>(
                AwardModel { summary: model.summary, ..before },
            ),
{
    lemma_award_names();
}

/// Writing and reading back an award that is canonical gives it again; that
/// holds in particular of one that has modelled fields only. What is kept
/// beside the modelled fields is written behind them, as it is.
pub proof fn lemma_award_round_trip(model: AwardModel)
    requires
        Award::canonical(model),
    ensures
        reads_back::<Award>(model),
        writes_extras_last::<Award>(model),
{
    lemma_award_names();
    lemma_award_reads_written(model);
    let fields0 = Seq::<(Seq<char>, JsonModel)>::empty();
    let model0 = AwardModel::empty();
    let earlier0 = |other: Seq<char>| false;
    let fields1 = put_present(fields0, "title"@, written_text(model.title));
    let model1 = AwardModel { title: model.title, ..model0 };
    let earlier1 = |other: Seq<char>| earlier0(other) || other == "title"@;
    lemma_read_next::<Award>(
        fields0,
        model0,
        "title"@,
        written_text(model.title),
        model1,
        earlier0,
    );
    let fields2 = put_present(fields1, "date"@, written_text(model.date));
    let model2 = AwardModel { date: model.date, ..model1 };
    let earlier2 = |other: Seq<char>| earlier1(other) || other == "date"@;
    lemma_read_next::<Award>(fields1, model1, "date"@, written_text(model.date), model2, earlier1);
    let fields3 = put_present(fields2, "awarder"@, written_text(model.awarder));
    let model3 = AwardModel { awarder: model.awarder, ..model2 };
    let earlier3 = |other: Seq<char>| earlier2(other) || other == "awarder"@;
    lemma_read_next::<Award>(
        fields2,
        model2,
        "awarder"@,
        written_text(model.awarder),
        model3,
        earlier2,
    );
    let fields4 = put_present(fields3, "summary"@, written_text(model.summary));
    let model4 = AwardModel { summary: model.summary, ..model3 };
    let earlier4 = |other: Seq<char>| earlier3(other) || other == "summary"@;
    lemma_read_next::<Award>(
        fields3,
        model3,
        "summary"@,
        written_text(model.summary),
        model4,
        earlier3,
    );
    lemma_read_extras::<Award>(fields4, model4, model.additional_properties);
    assert(Award::with_extras(model4, model.additional_properties) =~= model);
    assert(Award::with_extras(model, Seq::empty()) =~= model4);
    assert(put_all(fields4, Seq::empty()) == fields4);
}

impl Document for Certificate {
    open spec fn blank() -> CertificateModel {
        CertificateModel::empty()
    }

    open spec fn knows(key: Seq<char>) -> bool {
        ||| key == "name"@
        ||| key == "date"@
        ||| key == "url"@
        ||| key == "issuer"@
    }

    open spec fn absorb(model: CertificateModel, key: Seq<char>, value: JsonModel) -> Result<
        CertificateModel,
        PathModel,
    > {
        if key == "name"@ {
            placed(under(key, read_text(value)), |found| CertificateModel { name: found, ..model })
        } else if key == "date"@ {
            placed(under(key, read_text(value)), |found| CertificateModel { date: found, ..model })
        } else if key == "url"@ {
            placed(under(key, read_uri(value)), |found| CertificateModel { url: found, ..model })
        } else if key == "issuer"@ {
            placed(
                under(key, read_text(value)),
                |found| CertificateModel { issuer: found, ..model },
            )
        } else {
            Ok(Self::with_extras(model, put(model.additional_properties, key, value)))
        }
    }

    open spec fn fields_of(model: CertificateModel) -> PropertyModel {
        let fields = Seq::<(Seq<char>, JsonModel)>::empty();
        let fields = put_text(fields, "name"@, model.name);
        let fields = put_text(fields, "date"@, model.date);
        let fields = put_text(fields, "url"@, model.url);
        let fields = put_text(fields, "issuer"@, model.issuer);
        put_all(fields, model.additional_properties)
    }

    open spec fn canonical(model: CertificateModel) -> bool {
        &&& keys_unique(model.additional_properties)
        &&& forall|i: int|
            0 <= i < model.additional_properties.len() ==> !Self::knows(
                #[trigger] model.additional_properties[i].0,
            )
        &&& uri_is_canonical(model.url)
    }

    open spec fn extras(model: CertificateModel) -> PropertyModel {
        model.additional_properties
    }

    open spec fn with_extras(model: CertificateModel, extras: PropertyModel) -> CertificateModel {
        CertificateModel { additional_properties: extras, ..model }
    }

    fn start() -> (r: Certificate) {
        Certificate::new()
    }

    fn take(&mut self, key: &str, value: &JsonValue) -> (r: Result<(), DocumentError>) {
        if str_equal(key, "name") {
            self.name = text_field(key, value)?;
        } else if str_equal(key, "date") {
            self.date = date_field(key, value)?;
        } else if str_equal(key, "url") {
            self.url = uri_field(key, value)?;
        } else if str_equal(key, "issuer") {
            self.issuer = text_field(key, value)?;
        } else {
            self.additional_properties.insert(String::from_str(key), value.clone());
        }
        Ok(())
    }

    fn to_fields(&self) -> (r: PropertyMap) {
        let mut fields = PropertyMap::new();
        insert_text(&mut fields, "name", &self.name);
        insert_date(&mut fields, "date", &self.date);
        insert_uri(&mut fields, "url", &self.url);
        insert_text(&mut fields, "issuer", &self.issuer);
        insert_all(&mut fields, &self.additional_properties);
        fields
    }

    proof fn lemma_absorb_extras(model: CertificateModel, key: Seq<char>, value: JsonModel) {
    }

    proof fn lemma_with_extras(
        model: CertificateModel,
        first: PropertyModel,
        second: PropertyModel,
    ) {
    }
}

/// How the names of the fields of a certificate are spelled, as far as it
/// takes to tell them apart.
proof fn lemma_certificate_names()
    ensures
        "name"@.len() == 4,
        "date"@.len() == 4,
        "url"@.len() == 3,
        "issuer"@.len() == 6,
        "name"@[0] == 'n',
        "date"@[0] == 'd',
{
    reveal_strlit("name");
    reveal_strlit("date");
    reveal_strlit("url");
    reveal_strlit("issuer");
}

/// Reading a field that was written for a certificate puts it back in its place.
proof fn lemma_certificate_reads_written(model: CertificateModel)
    requires
        Certificate::canonical(model),
    ensures
        model.name is Some ==> forall|before: CertificateModel| #[trigger]
            Certificate::absorb(
                before,
                "name"@,
                written_text(model.name)->0,
            ) == Ok::<CertificateModel, PathModel>(
                CertificateModel { name: model.name, ..before },
            ),
        model.date is Some ==> forall|before: CertificateModel| #[trigger]
            Certificate::absorb(
                before,
                "date"@,
                written_text(model.date)->0,
            ) == Ok::<CertificateModel, PathModel>(
                CertificateModel { date: model.date, ..before },
            ),
        model.url is Some ==> forall|before: CertificateModel| #[trigger]
            Certificate::absorb(
                before,
                "url"@,
                written_text(model.url)->0,
            ) == Ok::<CertificateModel, PathModel>(
                CertificateModel { url: model.url, ..before },
            ),
        model.issuer is Some ==> forall|before: CertificateModel| #[trigger]
            Certificate::absorb(
                before,
                "issuer"@,
                written_text(model.issuer)->0,
            ) == Ok::<CertificateModel, PathModel>(
                CertificateModel { issuer: model.issuer, ..before },
            ),
{
    lemma_certificate_names();
}

/// Writing and reading back a certificate that is canonical gives it again; that
/// holds in particular of one that has modelled fields only. What is kept
/// beside the modelled fields is written behind them, as it is.
pub proof fn lemma_certificate_round_trip(model: CertificateModel)
    requires
        Certificate::canonical(model),
    ensures
        reads_back::<Certificate>(model),
        writes_extras_last::<Certificate>(model),
{
    lemma_certificate_names();
    lemma_certificate_reads_written(model);
    let fields0 = Seq::<(Seq<char>, JsonModel)>::empty();
    let model0 = CertificateModel::empty();
    let earlier0 = |other: Seq<char>| false;
    let fields1 = put_present(fields0, "name"@, written_text(model.name));
    let model1 = CertificateModel { name: model.name, ..model0 };
    let earlier1 = |other: Seq<char>| earlier0(other) || other == "name"@;
    lemma_read_next::<Certificate>(
        fields0,
        model0,
        "name"@,
        written_text(model.name),
        model1,
        earlier0,
    );
    let fields2 = put_present(fields1, "date"@, written_text(model.date));
    let model2 = CertificateModel { date: model.date, ..model1 };
    let earlier2 = |other: Seq<char>| earlier1(other) || other == "date"@;
    lemma_read_next::<Certificate>(
        fields1,
        model1,
        "date"@,
        written_text(model.date),
        model2,
        earlier1,
    );
    let fields3 = put_present(fields2, "url"@, written_text(model.url));
    let model3 = CertificateModel { url: model.url, ..model2 };
    let earlier3 = |other: Seq<char>| earlier2(other) || other == "url"@;
    lemma_read_next::<Certificate>(
        fields2,
        model2,
        "url"@,
        written_text(model.url),
        model3,
        earlier2,
    );
    let fields4 = put_present(fields3, "issuer"@, written_text(model.issuer));
    let model4 = CertificateModel { issuer: model.issuer, ..model3 };
    let earlier4 = |other: Seq<char>| earlier3(other) || other == "issuer"@;
    lemma_read_next::<Certificate>(
        fields3,
        model3,
        "issuer"@,
        written_text(model.issuer),
        model4,
        earlier3,
    );
    lemma_read_extras::<Certificate>(fields4, model4, model.additional_properties);
    assert(Certificate::with_extras(model4, model.additional_properties) =~= model);
    assert(Certificate::with_extras(model, Seq::empty()) =~= model4);
    assert(put_all(fields4, Seq::empty()) == fields4);
}

impl Document for Publication {
    open spec fn blank() -> PublicationModel {
        PublicationModel::empty()
    }

    open spec fn knows(key: Seq<char>) -> bool {
        ||| key == "name"@
        ||| key == "publisher"@
        ||| key == "releaseDate"@
        ||| key == "url"@
        ||| key == "summary"@
    }

    open spec fn absorb(model: PublicationModel, key: Seq<char>, value: JsonModel) -> Result<
        PublicationModel,
        PathModel,
    > {
        if key == "name"@ {
            placed(under(key, read_text(value)), |found| PublicationModel { name: found, ..model })
        } else if key == "publisher"@ {
            placed(
                under(key, read_text(value)),
                |found| PublicationModel { publisher: found, ..model },
            )
        } else if key == "releaseDate"@ {
            placed(
                under(key, read_text(value)),
                |found| PublicationModel { release_date: found, ..model },
            )
        } else if key == "url"@ {
            placed(under(key, read_uri(value)), |found| PublicationModel { url: found, ..model })
        } else if key == "summary"@ {
            placed(
                under(key, read_text(value)),
                |found| PublicationModel { summary: found, ..model },
            )
        } else {
            Ok(Self::with_extras(model, put(model.additional_properties, key, value)))
        }
    }

    open spec fn fields_of(model: PublicationModel) -> PropertyModel {
        let fields = Seq::<(Seq<char>, JsonModel)>::empty();
        let fields = put_text(fields, "name"@, model.name);
        let fields = put_text(fields, "publisher"@, model.publisher);
        let fields = put_text(fields, "releaseDate"@, model.release_date);
        let fields = put_text(fields, "url"@, model.url);
        let fields = put_text(fields, "summary"@, model.summary);
        put_all(fields, model.additional_properties)
    }

    open spec fn canonical(model: PublicationModel) -> bool {
        &&& keys_unique(model.additional_properties)
        &&& forall|i: int|
            0 <= i < model.additional_properties.len() ==> !Self::knows(
                #[trigger] model.additional_properties[i].0,
            )
        &&& uri_is_canonical(model.url)
    }

    open spec fn extras(model: PublicationModel) -> PropertyModel {
        model.additional_properties
    }

    open spec fn with_extras(model: PublicationModel, extras: PropertyModel) -> PublicationModel {
        PublicationModel { additional_properties: extras, ..model }
    }

    fn start() -> (r: Publication) {
        Publication::new()
    }

    fn take(&mut self, key: &str, value: &JsonValue) -> (r: Result<(), DocumentError>) {
        if str_equal(key, "name") {
            self.name = text_field(key, value)?;
        } else if str_equal(key, "publisher") {
            self.publisher = text_field(key, value)?;
        } else if str_equal(key, "releaseDate") {
            self.release_date = date_field(key, value)?;
        } else if str_equal(key, "url") {
            self.url = uri_field(key, value)?;
        } else if str_equal(key, "summary") {
            self.summary = text_field(key, value)?;
        } else {
            self.additional_properties.insert(String::from_str(key), value.clone());
        }
        Ok(())
    }

    fn to_fields(&self) -> (r: PropertyMap) {
        let mut fields = PropertyMap::new();
        insert_text(&mut fields, "name", &self.name);
        insert_text(&mut fields, "publisher", &self.publisher);
        insert_date(&mut fields, "releaseDate", &self.release_date);
        insert_uri(&mut fields, "url", &self.url);
        insert_text(&mut fields, "summary", &self.summary);
        insert_all(&mut fields, &self.additional_properties);
        fields
    }

    proof fn lemma_absorb_extras(model: PublicationModel, key: Seq<char>, value: JsonModel) {
    }

    proof fn lemma_with_extras(
        model: PublicationModel,
        first: PropertyModel,
        second: PropertyModel,
    ) {
    }
}

/// How the names of the fields of a publication are spelled, as far as it
/// takes to tell them apart.
proof fn lemma_publication_names()
    ensures
        "name"@.len() == 4,
        "publisher"@.len() == 9,
        "releaseDate"@.len() == 11,
        "url"@.len() == 3,
        "summary"@.len() == 7,
{
    reveal_strlit("name");
    reveal_strlit("publisher");
    reveal_strlit("releaseDate");
    reveal_strlit("url");
    reveal_strlit("summary");
}

/// Reading a field that was written for a publication puts it back in its place.
proof fn lemma_publication_reads_written(model: PublicationModel)
    requires
        Publication::canonical(model),
    ensures
        model.name is Some ==> forall|before: PublicationModel| #[trigger]
            Publication::absorb(
                before,
                "name"@,
                written_text(model.name)->0,
            ) == Ok::<PublicationModel, PathModel>(
                PublicationModel { name: model.name, ..before },
            ),
        model.publisher is Some ==> forall|before: PublicationModel| #[trigger]
            Publication::absorb(
                before,
                "publisher"@,
                written_text(model.publisher)->0,
            ) == Ok::<PublicationModel, PathModel>(
                PublicationModel { publisher: model.publisher, ..before },
            ),
        model.release_date is Some ==> forall|before: PublicationModel| #[trigger]
            Publication::absorb(
                before,
                "releaseDate"@,
                written_text(model.release_date)->0,
            ) == Ok::<PublicationModel, PathModel>(
                PublicationModel { release_date: model.release_date, ..before },
            ),
        model.url is Some ==> forall|before: PublicationModel| #[trigger]
            Publication::absorb(
                before,
                "url"@,
                written_text(model.url)->0,
            ) == Ok::<PublicationModel, PathModel>(
                PublicationModel { url: model.url, ..before },
            ),
        model.summary is Some ==> forall|before: PublicationModel| #[trigger]
            Publication::absorb(
                before,
                "summary"@,
                written_text(model.summary)->0,
            ) == Ok::<PublicationModel, PathModel>(
                PublicationModel { summary: model.summary, ..before },
            ),
{
    lemma_publication_names();
}

/// Writing and reading back a publication that is canonical gives it again; that
/// holds in particular of one that has modelled fields only. What is kept
/// beside the modelled fields is written behind them, as it is.
pub proof fn lemma_publication_round_trip(model: PublicationModel)
    requires
        Publication::canonical(model),
    ensures
        reads_back::<Publication>(model),
        writes_extras_last::<Publication>(model),
{
    lemma_publication_names();
    lemma_publication_reads_written(model);
    let fields0 = Seq::<(Seq<char>, JsonModel)>::empty();
    let model0 = PublicationModel::empty();
    let earlier0 = |other: Seq<char>| false;
    let fields1 = put_present(fields0, "name"@, written_text(model.name));
    let model1 = PublicationModel { name: model.name, ..model0 };
    let earlier1 = |other: Seq<char>| earlier0(other) || other == "name"@;
    lemma_read_next::<Publication>(
        fields0,
        model0,
        "name"@,
        written_text(model.name),
        model1,
        earlier0,
    );
    let fields2 = put_present(fields1, "publisher"@, written_text(model.publisher));
    let model2 = PublicationModel { publisher: model.publisher, ..model1 };
    let earlier2 = |other: Seq<char>| earlier1(other) || other == "publisher"@;
    lemma_read_next::<Publication>(
        fields1,
        model1,
        "publisher"@,
        written_text(model.publisher),
        model2,
        earlier1,
    );
    let fields3 = put_present(fields2, "releaseDate"@, written_text(model.release_date));
    let model3 = PublicationModel { release_date: model.release_date, ..model2 };
    let earlier3 = |other: Seq<char>| earlier2(other) || other == "releaseDate"@;
    lemma_read_next::<Publication>(
        fields2,
        model2,
        "releaseDate"@,
        written_text(model.release_date),
        model3,
        earlier2,
    );
    let fields4 = put_present(fields3, "url"@, written_text(model.url));
    let model4 = PublicationModel { url: model.url, ..model3 };
    let earlier4 = |other: Seq<char>| earlier3(other) || other == "url"@;
    lemma_read_next::<Publication>(
        fields3,
        model3,
        "url"@,
        written_text(model.url),
        model4,
        earlier3,
    );
    let fields5 = put_present(fields4, "summary"@, written_text(model.summary));
    let model5 = PublicationModel { summary: model.summary, ..model4 };
    let earlier5 = |other: Seq<char>| earlier4(other) || other == "summary"@;
    lemma_read_next::<Publication>(
        fields4,
        model4,
        "summary"@,
        written_text(model.summary),
        model5,
        earlier4,
    );
    lemma_read_extras::<Publication>(fields5, model5, model.additional_properties);
    assert(Publication::with_extras(model5, model.additional_properties) =~= model);
    assert(Publication::with_extras(model, Seq::empty()) =~= model5);
    assert(put_all(fields5, Seq::empty()) == fields5);
}

impl Document for Skill {
    open spec fn blank() -> SkillModel {
        SkillModel::empty()
    }

    open spec fn knows(key: Seq<char>) -> bool {
        ||| key == "name"@
        ||| key == "level"@
        ||| key == "keywords"@
    }

    open spec fn absorb(model: SkillModel, key: Seq<char>, value: JsonModel) -> Result<
        SkillModel,
        PathModel,
    > {
        if key == "name"@ {
            placed(under(key, read_text(value)), |found| SkillModel { name: found, ..model })
        } else if key == "level"@ {
            placed(under(key, read_text(value)), |found| SkillModel { level: found, ..model })
        } else if key == "keywords"@ {
            placed(
                under(key, read_text_list(value)),
                |found| SkillModel { keywords: found, ..model },
            )
        } else {
            Ok(Self::with_extras(model, put(model.additional_properties, key, value)))
        }
    }

    open spec fn fields_of(model: SkillModel) -> PropertyModel {
        let fields = Seq::<(Seq<char>, JsonModel)>::empty();
        let fields = put_text(fields, "name"@, model.name);
        let fields = put_text(fields, "level"@, model.level);
        let fields = put_text_list(fields, "keywords"@, model.keywords);
        put_all(fields, model.additional_properties)
    }

    open spec fn canonical(model: SkillModel) -> bool {
        &&& keys_unique(model.additional_properties)
        &&& forall|i: int|
            0 <= i < model.additional_properties.len() ==> !Self::knows(
                #[trigger] model.additional_properties[i].0,
            )
    }

    open spec fn extras(model: SkillModel) -> PropertyModel {
        model.additional_properties
    }

    open spec fn with_extras(model: SkillModel, extras: PropertyModel) -> SkillModel {
        SkillModel { additional_properties: extras, ..model }
    }

    fn start() -> (r: Skill) {
        Skill::new()
    }

    fn take(&mut self, key: &str, value: &JsonValue) -> (r: Result<(), DocumentError>) {
        if str_equal(key, "name") {
            self.name = text_field(key, value)?;
        } else if str_equal(key, "level") {
            self.level = text_field(key, value)?;
        } else if str_equal(key, "keywords") {
            self.keywords = text_list_field(key, value)?;
        } else {
            self.additional_properties.insert(String::from_str(key), value.clone());
        }
        Ok(())
    }

    fn to_fields(&self) -> (r: PropertyMap) {
        let mut fields = PropertyMap::new();
        insert_text(&mut fields, "name", &self.name);
        insert_text(&mut fields, "level", &self.level);
        insert_text_list(&mut fields, "keywords", &self.keywords);
        insert_all(&mut fields, &self.additional_properties);
        fields
    }

    proof fn lemma_absorb_extras(model: SkillModel, key: Seq<char>, value: JsonModel) {
    }

    proof fn lemma_with_extras(model: SkillModel, first: PropertyModel, second: PropertyModel) {
    }
}

/// How the names of the fields of a skill are spelled, as far as it
/// takes to tell them apart.
proof fn lemma_skill_names()
    ensures
        "name"@.len() == 4,
        "level"@.len() == 5,
        "keywords"@.len() == 8,
{
    reveal_strlit("name");
    reveal_strlit("level");
    reveal_strlit("keywords");
}

/// Reading a field that was written for a skill puts it back in its place.
proof fn lemma_skill_reads_written(model: SkillModel)
    requires
        Skill::canonical(model),
    ensures
        model.name is Some ==> forall|before: SkillModel| #[trigger]
            Skill::absorb(
                before,
                "name"@,
                written_text(model.name)->0,
            ) == Ok::<SkillModel, PathModel>(
                SkillModel { name: model.name, ..before },
            ),
        model.level is Some ==> forall|before: SkillModel| #[trigger]
            Skill::absorb(
                before,
                "level"@,
                written_text(model.level)->0,
            ) == Ok::<SkillModel, PathModel>(
                SkillModel { level: model.level, ..before },
            ),
        model.keywords is Some ==> forall|before: SkillModel| #[trigger]
            Skill::absorb(
                before,
                "keywords"@,
                written_text_list(model.keywords)->0,
            ) == Ok::<SkillModel, PathModel>(
                SkillModel { keywords: model.keywords, ..before },
            ),
{
    lemma_skill_names();
    if let Some(texts) = model.keywords {
        lemma_read_texts_round_trip(texts);
    }
}

/// Writing and reading back a skill that is canonical gives it again; that
/// holds in particular of one that has modelled fields only. What is kept
/// beside the modelled fields is written behind them, as it is.
pub proof fn lemma_skill_round_trip(model: SkillModel)
    requires
        Skill::canonical(model),
    ensures
        reads_back::<Skill>(model),
        writes_extras_last::<Skill>(model),
{
    lemma_skill_names();
    lemma_skill_reads_written(model);
    let fields0 = Seq::<(Seq<char>, JsonModel)>::empty();
    let model0 = SkillModel::empty();
    let earlier0 = |other: Seq<char>| false;
    let fields1 = put_present(fields0, "name"@, written_text(model.name));
    let model1 = SkillModel { name: model.name, ..model0 };
    let earlier1 = |other: Seq<char>| earlier0(other) || other == "name"@;
    lemma_read_next::<Skill>(fields0, model0, "name"@, written_text(model.name), model1, earlier0);
    let fields2 = put_present(fields1, "level"@, written_text(model.level));
    let model2 = SkillModel { level: model.level, ..model1 };
    let earlier2 = |other: Seq<char>| earlier1(other) || other == "level"@;
    lemma_read_next::<Skill>(
        fields1,
        model1,
        "level"@,
        written_text(model.level),
        model2,
        earlier1,
    );
    let fields3 = put_present(fields2, "keywords"@, written_text_list(model.keywords));
    let model3 = SkillModel { keywords: model.keywords, ..model2 };
    let earlier3 = |other: Seq<char>| earlier2(other) || other == "keywords"@;
    lemma_read_next::<Skill>(
        fields2,
        model2,
        "keywords"@,
        written_text_list(model.keywords),
        model3,
        earlier2,
    );
    lemma_read_extras::<Skill>(fields3, model3, model.additional_properties);
    assert(Skill::with_extras(model3, model.additional_properties) =~= model);
    assert(Skill::with_extras(model, Seq::empty()) =~= model3);
    assert(put_all(fields3, Seq::empty()) == fields3);
}

impl Document for Language {
    open spec fn blank() -> LanguageModel {
        LanguageModel::empty()
    }

    open spec fn knows(key: Seq<char>) -> bool {
        ||| key == "language"@
        ||| key == "fluency"@
    }

    open spec fn absorb(model: LanguageModel, key: Seq<char>, value: JsonModel) -> Result<
        LanguageModel,
        PathModel,
    > {
        if key == "language"@ {
            placed(under(key, read_text(value)), |found| LanguageModel { language: found, ..model })
        } else if key == "fluency"@ {
            placed(under(key, read_text(value)), |found| LanguageModel { fluency: found, ..model })
        } else {
            Ok(Self::with_extras(model, put(model.additional_properties, key, value)))
        }
    }

    open spec fn fields_of(model: LanguageModel) -> PropertyModel {
        let fields = Seq::<(Seq<char>, JsonModel)>::empty();
        let fields = put_text(fields, "language"@, model.language);
        let fields = put_text(fields, "fluency"@, model.fluency);
        put_all(fields, model.additional_properties)
    }

    open spec fn canonical(model: LanguageModel) -> bool {
        &&& keys_unique(model.additional_properties)
        &&& forall|i: int|
            0 <= i < model.additional_properties.len() ==> !Self::knows(
                #[trigger] model.additional_properties[i].0,
            )
    }

    open spec fn extras(model: LanguageModel) -> PropertyModel {
        model.additional_properties
    }

    open spec fn with_extras(model: LanguageModel, extras: PropertyModel) -> LanguageModel {
        LanguageModel { additional_properties: extras, ..model }
    }

    fn start() -> (r: Language) {
        Language::new()
    }

    fn take(&mut self, key: &str, value: &JsonValue) -> (r: Result<(), DocumentError>) {
        if str_equal(key, "language") {
            self.language = text_field(key, value)?;
        } else if str_equal(key, "fluency") {
            self.fluency = text_field(key, value)?;
        } else {
            self.additional_properties.insert(String::from_str(key), value.clone());
        }
        Ok(())
    }

    fn to_fields(&self) -> (r: PropertyMap) {
        let mut fields = PropertyMap::new();
        insert_text(&mut fields, "language", &self.language);
        insert_text(&mut fields, "fluency", &self.fluency);
        insert_all(&mut fields, &self.additional_properties);
        fields
    }

    proof fn lemma_absorb_extras(model: LanguageModel, key: Seq<char>, value: JsonModel) {
    }

    proof fn lemma_with_extras(model: LanguageModel, first: PropertyModel, second: PropertyModel) {
    }
}

/// How the names of the fields of a language are spelled, as far as it
/// takes to tell them apart.
proof fn lemma_language_names()
    ensures
        "language"@.len() == 8,
        "fluency"@.len() == 7,
{
    reveal_strlit("language");
    reveal_strlit("fluency");
}

/// Reading a field that was written for a language puts it back in its place.
proof fn lemma_language_reads_written(model: LanguageModel)
    requires
        Language::canonical(model),
    ensures
        model.language is Some ==> forall|before: LanguageModel| #[trigger]
            Language::absorb(
                before,
                "language"@,
                written_text(model.language)->0,
            ) == Ok::<LanguageModel, PathModel>(
                LanguageModel { language: model.language, ..before },
            ),
        model.fluency is Some ==> forall|before: LanguageModel| #[trigger]
            Language::absorb(
                before,
                "fluency"@,
                written_text(model.fluency)->0,
            ) == Ok::<LanguageModel, PathModel>(
                LanguageModel { fluency: model.fluency, ..before },
            ),
{
    lemma_language_names();
}

/// Writing and reading back a language that is canonical gives it again; that
/// holds in particular of one that has modelled fields only. What is kept
/// beside the modelled fields is written behind them, as it is.
pub proof fn lemma_language_round_trip(model: LanguageModel)
    requires
        Language::canonical(model),
    ensures
        reads_back::<Language>(model),
        writes_extras_last::<Language>(model),
{
    lemma_language_names();
    lemma_language_reads_written(model);
    let fields0 = Seq::<(Seq<char>, JsonModel)>::empty();
    let model0 = LanguageModel::empty();
    let earlier0 = |other: Seq<char>| false;
    let fields1 = put_present(fields0, "language"@, written_text(model.language));
    let model1 = LanguageModel { language: model.language, ..model0 };
    let earlier1 = |other: Seq<char>| earlier0(other) || other == "language"@;
    lemma_read_next::<Language>(
        fields0,
        model0,
        "language"@,
        written_text(model.language),
        model1,
        earlier0,
    );
    let fields2 = put_present(fields1, "fluency"@, written_text(model.fluency));
    let model2 = LanguageModel { fluency: model.fluency, ..model1 };
    let earlier2 = |other: Seq<char>| earlier1(other) || other == "fluency"@;
    lemma_read_next::<Language>(
        fields1,
        model1,
        "fluency"@,
        written_text(model.fluency),
        model2,
        earlier1,
    );
    lemma_read_extras::<Language>(fields2, model2, model.additional_properties);
    assert(Language::with_extras(model2, model.additional_properties) =~= model);
    assert(Language::with_extras(model, Seq::empty()) =~= model2);
    assert(put_all(fields2, Seq::empty()) == fields2);
}

impl Document for Interest {
    open spec fn blank() -> InterestModel {
        InterestModel::empty()
    }

    open spec fn knows(key: Seq<char>) -> bool {
        ||| key == "name"@
        ||| key == "keywords"@
    }

    open spec fn absorb(model: InterestModel, key: Seq<char>, value: JsonModel) -> Result<
        InterestModel,
        PathModel,
    > {
        if key == "name"@ {
            placed(under(key, read_text(value)), |found| InterestModel { name: found, ..model })
        } else if key == "keywords"@ {
            placed(
                under(key, read_text_list(value)),
                |found| InterestModel { keywords: found, ..model },
            )
        } else {
            Ok(Self::with_extras(model, put(model.additional_properties, key, value)))
        }
    }

    open spec fn fields_of(model: InterestModel) -> PropertyModel {
        let fields = Seq::<(Seq<char>, JsonModel)>::empty();
        let fields = put_text(fields, "name"@, model.name);
        let fields = put_text_list(fields, "keywords"@, model.keywords);
        put_all(fields, model.additional_properties)
    }

    open spec fn canonical(model: InterestModel) -> bool {
        &&& keys_unique(model.additional_properties)
        &&& forall|i: int|
            0 <= i < model.additional_properties.len() ==> !Self::knows(
                #[trigger] model.additional_properties[i].0,
            )
    }

    open spec fn extras(model: InterestModel) -> PropertyModel {
        model.additional_properties
    }

    open spec fn with_extras(model: InterestModel, extras: PropertyModel) -> InterestModel {
        InterestModel { additional_properties: extras, ..model }
    }

    fn start() -> (r: Interest) {
        Interest::new()
    }

    fn take(&mut self, key: &str, value: &JsonValue) -> (r: Result<(), DocumentError>) {
        if str_equal(key, "name") {
            self.name = text_field(key, value)?;
        } else if str_equal(key, "keywords") {
            self.keywords = text_list_field(key, value)?;
        } else {
            self.additional_properties.insert(String::from_str(key), value.clone());
        }
        Ok(())
    }

    fn to_fields(&self) -> (r: PropertyMap) {
        let mut fields = PropertyMap::new();
        insert_text(&mut fields, "name", &self.name);
        insert_text_list(&mut fields, "keywords", &self.keywords);
        insert_all(&mut fields, &self.additional_properties);
        fields
    }

    proof fn lemma_absorb_extras(model: InterestModel, key: Seq<char>, value: JsonModel) {
    }

    proof fn lemma_with_extras(model: InterestModel, first: PropertyModel, second: PropertyModel) {
    }
}

/// How the names of the fields of an interest are spelled, as far as it
/// takes to tell them apart.
proof fn lemma_interest_names()
    ensures
        "name"@.len() == 4,
        "keywords"@.len() == 8,
{
    reveal_strlit("name");
    reveal_strlit("keywords");
}

/// Reading a field that was written for an interest puts it back in its place.
proof fn lemma_interest_reads_written(model: InterestModel)
    requires
        Interest::canonical(model),
    ensures
        model.name is Some ==> forall|before: InterestModel| #[trigger]
            Interest::absorb(
                before,
                "name"@,
                written_text(model.name)->0,
            ) == Ok::<InterestModel, PathModel>(
                InterestModel { name: model.name, ..before },
            ),
        model.keywords is Some ==> forall|before: InterestModel| #[trigger]
            Interest::absorb(
                before,
                "keywords"@,
                written_text_list(model.keywords)->0,
            ) == Ok::<InterestModel, PathModel>(
                InterestModel { keywords: model.keywords, ..before },
            ),
{
    lemma_interest_names();
    if let Some(texts) = model.keywords {
        lemma_read_texts_round_trip(texts);
    }
}

/// Writing and reading back an interest that is canonical gives it again; that
/// holds in particular of one that has modelled fields only. What is kept
/// beside the modelled fields is written behind them, as it is.
pub proof fn lemma_interest_round_trip(model: InterestModel)
    requires
        Interest::canonical(model),
    ensures
        reads_back::<Interest>(model),
        writes_extras_last::<Interest>(model),
{
    lemma_interest_names();
    lemma_interest_reads_written(model);
    let fields0 = Seq::<(Seq<char>, JsonModel)>::empty();
    let model0 = InterestModel::empty();
    let earlier0 = |other: Seq<char>| false;
    let fields1 = put_present(fields0, "name"@, written_text(model.name));
    let model1 = InterestModel { name: model.name, ..model0 };
    let earlier1 = |other: Seq<char>| earlier0(other) || other == "name"@;
    lemma_read_next::<Interest>(
        fields0,
        model0,
        "name"@,
        written_text(model.name),
        model1,
        earlier0,
    );
    let fields2 = put_present(fields1, "keywords"@, written_text_list(model.keywords));
    let model2 = InterestModel { keywords: model.keywords, ..model1 };
    let earlier2 = |other: Seq<char>| earlier1(other) || other == "keywords"@;
    lemma_read_next::<Interest>(
        fields1,
        model1,
        "keywords"@,
        written_text_list(model.keywords),
        model2,
        earlier1,
    );
    lemma_read_extras::<Interest>(fields2, model2, model.additional_properties);
    assert(Interest::with_extras(model2, model.additional_properties) =~= model);
    assert(Interest::with_extras(model, Seq::empty()) =~= model2);
    assert(put_all(fields2, Seq::empty()) == fields2);
}

impl Document for Reference {
    open spec fn blank() -> ReferenceModel {
        ReferenceModel::empty()
    }

    open spec fn knows(key: Seq<char>) -> bool {
        ||| key == "name"@
        ||| key == "reference"@
    }

    open spec fn absorb(model: ReferenceModel, key: Seq<char>, value: JsonModel) -> Result<
        ReferenceModel,
        PathModel,
    > {
        if key == "name"@ {
            placed(under(key, read_text(value)), |found| ReferenceModel { name: found, ..model })
        } else if key == "reference"@ {
            placed(
                under(key, read_text(value)),
                |found| ReferenceModel { reference: found, ..model },
            )
        } else {
            Ok(Self::with_extras(model, put(model.additional_properties, key, value)))
        }
    }

    open spec fn fields_of(model: ReferenceModel) -> PropertyModel {
        let fields = Seq::<(Seq<char>, JsonModel)>::empty();
        let fields = put_text(fields, "name"@, model.name);
        let fields = put_text(fields, "reference"@, model.reference);
        put_all(fields, model.additional_properties)
    }

    open spec fn canonical(model: ReferenceModel) -> bool {
        &&& keys_unique(model.additional_properties)
        &&& forall|i: int|
            0 <= i < model.additional_properties.len() ==> !Self::knows(
                #[trigger] model.additional_properties[i].0,
            )
    }

    open spec fn extras(model: ReferenceModel) -> PropertyModel {
        model.additional_properties
    }

    open spec fn with_extras(model: ReferenceModel, extras: PropertyModel) -> ReferenceModel {
        ReferenceModel { additional_properties: extras, ..model }
    }

    fn start() -> (r: Reference) {
        Reference::new()
    }

    fn take(&mut self, key: &str, value: &JsonValue) -> (r: Result<(), DocumentError>) {
        if str_equal(key, "name") {
            self.name = text_field(key, value)?;
        } else if str_equal(key, "reference") {
            self.reference = text_field(key, value)?;
        } else {
            self.additional_properties.insert(String::from_str(key), value.clone());
        }
        Ok(())
    }

    fn to_fields(&self) -> (r: PropertyMap) {
        let mut fields = PropertyMap::new();
        insert_text(&mut fields, "name", &self.name);
        insert_text(&mut fields, "reference", &self.reference);
        insert_all(&mut fields, &self.additional_properties);
        fields
    }

    proof fn lemma_absorb_extras(model: ReferenceModel, key: Seq<char>, value: JsonModel) {
    }

    proof fn lemma_with_extras(model: ReferenceModel, first: PropertyModel, second: PropertyModel) {
    }
}

/// How the names of the fields of a reference are spelled, as far as it
/// takes to tell them apart.
proof fn lemma_reference_names()
    ensures
        "name"@.len() == 4,
        "reference"@.len() == 9,
{
    reveal_strlit("name");
    reveal_strlit("reference");
}

/// Reading a field that was written for a reference puts it back in its place.
proof fn lemma_reference_reads_written(model: ReferenceModel)
    requires
        Reference::canonical(model),
    ensures
        model.name is Some ==> forall|before: ReferenceModel| #[trigger]
            Reference::absorb(
                before,
                "name"@,
                written_text(model.name)->0,
            ) == Ok::<ReferenceModel, PathModel>(
                ReferenceModel { name: model.name, ..before },
            ),
        model.reference is Some ==> forall|before: ReferenceModel| #[trigger]
            Reference::absorb(
                before,
                "reference"@,
                written_text(model.reference)->0,
            ) == Ok::<ReferenceModel, PathModel>(
                ReferenceModel { reference: model.reference, ..before },
            ),
{
    lemma_reference_names();
}

/// Writing and reading back a reference that is canonical gives it again; that
/// holds in particular of one that has modelled fields only. What is kept
/// beside the modelled fields is written behind them, as it is.
pub proof fn lemma_reference_round_trip(model: ReferenceModel)
    requires
        Reference::canonical(model),
    ensures
        reads_back::<Reference>(model),
        writes_extras_last::<Reference>(model),
{
    lemma_reference_names();
    lemma_reference_reads_written(model);
    let fields0 = Seq::<(Seq<char>, JsonModel)>::empty();
    let model0 = ReferenceModel::empty();
    let earlier0 = |other: Seq<char>| false;
    let fields1 = put_present(fields0, "name"@, written_text(model.name));
    let model1 = ReferenceModel { name: model.name, ..model0 };
    let earlier1 = |other: Seq<char>| earlier0(other) || other == "name"@;
    lemma_read_next::<Reference>(
        fields0,
        model0,
        "name"@,
        written_text(model.name),
        model1,
        earlier0,
    );
    let fields2 = put_present(fields1, "reference"@, written_text(model.reference));
    let model2 = ReferenceModel { reference: model.reference, ..model1 };
    let earlier2 = |other: Seq<char>| earlier1(other) || other == "reference"@;
    lemma_read_next::<Reference>(
        fields1,
        model1,
        "reference"@,
        written_text(model.reference),
        model2,
        earlier1,
    );
    lemma_read_extras::<Reference>(fields2, model2, model.additional_properties);
    assert(Reference::with_extras(model2, model.additional_properties) =~= model);
    assert(Reference::with_extras(model, Seq::empty()) =~= model2);
    assert(put_all(fields2, Seq::empty()) == fields2);
}

impl Document for Project {
    open spec fn blank() -> ProjectModel {
        ProjectModel::empty()
    }

    open spec fn knows(key: Seq<char>) -> bool {
        ||| key == "name"@
        ||| key == "description"@
        ||| key == "highlights"@
        ||| key == "keywords"@
        ||| key == "startDate"@
        ||| key == "endDate"@
        ||| key == "url"@
        ||| key == "roles"@
        ||| key == "entity"@
        ||| key == "type"@
    }

    open spec fn absorb(model: ProjectModel, key: Seq<char>, value: JsonModel) -> Result<
        ProjectModel,
        PathModel,
    > {
        if key == "name"@ {
            placed(under(key, read_text(value)), |found| ProjectModel { name: found, ..model })
        } else if key == "description"@ {
            placed(
                under(key, read_text(value)),
                |found| ProjectModel { description: found, ..model },
            )
        } else if key == "highlights"@ {
            placed(
                under(key, read_text_list(value)),
                |found| ProjectModel { highlights: found, ..model },
            )
        } else if key == "keywords"@ {
            placed(
                under(key, read_text_list(value)),
                |found| ProjectModel { keywords: found, ..model },
            )
        } else if key == "startDate"@ {
            placed(
                under(key, read_text(value)),
                |found| ProjectModel { start_date: found, ..model },
            )
        } else if key == "endDate"@ {
            placed(under(key, read_text(value)), |found| ProjectModel { end_date: found, ..model })
        } else if key == "url"@ {
            placed(under(key, read_uri(value)), |found| ProjectModel { url: found, ..model })
        } else if key == "roles"@ {
            placed(
                under(key, read_text_list(value)),
                |found| ProjectModel { roles: found, ..model },
            )
        } else if key == "entity"@ {
            placed(under(key, read_text(value)), |found| ProjectModel { entity: found, ..model })
        } else if key == "type"@ {
            placed(
                under(key, read_text(value)),
                |found| ProjectModel { project_type: found, ..model },
            )
        } else {
            Ok(Self::with_extras(model, put(model.additional_properties, key, value)))
        }
    }

    open spec fn fields_of(model: ProjectModel) -> PropertyModel {
        let fields = Seq::<(Seq<char>, JsonModel)>::empty();
        let fields = put_text(fields, "name"@, model.name);
        let fields = put_text(fields, "description"@, model.description);
        let fields = put_text_list(fields, "highlights"@, model.highlights);
        let fields = put_text_list(fields, "keywords"@, model.keywords);
        let fields = put_text(fields, "startDate"@, model.start_date);
        let fields = put_text(fields, "endDate"@, model.end_date);
        let fields = put_text(fields, "url"@, model.url);
        let fields = put_text_list(fields, "roles"@, model.roles);
        let fields = put_text(fields, "entity"@, model.entity);
        let fields = put_text(fields, "type"@, model.project_type);
        put_all(fields, model.additional_properties)
    }

    open spec fn canonical(model: ProjectModel) -> bool {
        &&& keys_unique(model.additional_properties)
        &&& forall|i: int|
            0 <= i < model.additional_properties.len() ==> !Self::knows(
                #[trigger] model.additional_properties[i].0,
            )
        &&& uri_is_canonical(model.url)
    }

    open spec fn extras(model: ProjectModel) -> PropertyModel {
        model.additional_properties
    }

    open spec fn with_extras(model: ProjectModel, extras: PropertyModel) -> ProjectModel {
        ProjectModel { additional_properties: extras, ..model }
    }

    fn start() -> (r: Project) {
        Project::new()
    }

    fn take(&mut self, key: &str, value: &JsonValue) -> (r: Result<(), DocumentError>) {
        if str_equal(key, "name") {
            self.name = text_field(key, value)?;
        } else if str_equal(key, "description") {
            self.description = text_field(key, value)?;
        } else if str_equal(key, "highlights") {
            self.highlights = text_list_field(key, value)?;
        } else if str_equal(key, "keywords") {
            self.keywords = text_list_field(key, value)?;
        } else if str_equal(key, "startDate") {
            self.start_date = date_field(key, value)?;
        } else if str_equal(key, "endDate") {
            self.end_date = date_field(key, value)?;
        } else if str_equal(key, "url") {
            self.url = uri_field(key, value)?;
        } else if str_equal(key, "roles") {
            self.roles = text_list_field(key, value)?;
        } else if str_equal(key, "entity") {
            self.entity = text_field(key, value)?;
        } else if str_equal(key, "type") {
            self.project_type = text_field(key, value)?;
        } else {
            self.additional_properties.insert(String::from_str(key), value.clone());
        }
        Ok(())
    }

    fn to_fields(&self) -> (r: PropertyMap) {
        let mut fields = PropertyMap::new();
        insert_text(&mut fields, "name", &self.name);
        insert_text(&mut fields, "description", &self.description);
        insert_text_list(&mut fields, "highlights", &self.highlights);
        insert_text_list(&mut fields, "keywords", &self.keywords);
        insert_date(&mut fields, "startDate", &self.start_date);
        insert_date(&mut fields, "endDate", &self.end_date);
        insert_uri(&mut fields, "url", &self.url);
        insert_text_list(&mut fields, "roles", &self.roles);
        insert_text(&mut fields, "entity", &self.entity);
        insert_text(&mut fields, "type", &self.project_type);
        insert_all(&mut fields, &self.additional_properties);
        fields
    }

    proof fn lemma_absorb_extras(model: ProjectModel, key: Seq<char>, value: JsonModel) {
    }

    proof fn lemma_with_extras(model: ProjectModel, first: PropertyModel, second: PropertyModel) {
    }
}

/// How the names of the fields of a project are spelled, as far as it
/// takes to tell them apart.
proof fn lemma_project_names()
    ensures
        "name"@.len() == 4,
        "description"@.len() == 11,
        "highlights"@.len() == 10,
        "keywords"@.len() == 8,
        "startDate"@.len() == 9,
        "endDate"@.len() == 7,
        "url"@.len() == 3,
        "roles"@.len() == 5,
        "entity"@.len() == 6,
        "type"@.len() == 4,
        "name"@[0] == 'n',
        "type"@[0] == 't',
{
    reveal_strlit("name");
    reveal_strlit("description");
    reveal_strlit("highlights");
    reveal_strlit("keywords");
    reveal_strlit("startDate");
    reveal_strlit("endDate");
    reveal_strlit("url");
    reveal_strlit("roles");
    reveal_strlit("entity");
    reveal_strlit("type");
}

/// Reading a field that was written for a project puts it back in its place.
proof fn lemma_project_reads_written(model: ProjectModel)
    requires
        Project::canonical(model),
    ensures
        model.name is Some ==> forall|before: ProjectModel| #[trigger]
            Project::absorb(
                before,
                "name"@,
                written_text(model.name)->0,
            ) == Ok::<ProjectModel, PathModel>(
                ProjectModel { name: model.name, ..before },
            ),
        model.description is Some ==> forall|before: ProjectModel| #[trigger]
            Project::absorb(
                before,
                "description"@,
                written_text(model.description)->0,
            ) == Ok::<ProjectModel, PathModel>(
                ProjectModel { description: model.description, ..before },
            ),
        model.highlights is Some ==> forall|before: ProjectModel| #[trigger]
            Project::absorb(
                before,
                "highlights"@,
                written_text_list(model.highlights)->0,
            ) == Ok::<ProjectModel, PathModel>(
                ProjectModel { highlights: model.highlights, ..before },
            ),
        model.keywords is Some ==> forall|before: ProjectModel| #[trigger]
            Project::absorb(
                before,
                "keywords"@,
                written_text_list(model.keywords)->0,
            ) == Ok::<ProjectModel, PathModel>(
                ProjectModel { keywords: model.keywords, ..before },
            ),
        model.start_date is Some ==> forall|before: ProjectModel| #[trigger]
            Project::absorb(
                before,
                "startDate"@,
                written_text(model.start_date)->0,
            ) == Ok::<ProjectModel, PathModel>(
                ProjectModel { start_date: model.start_date, ..before },
            ),
        model.end_date is Some ==> forall|before: ProjectModel| #[trigger]
            Project::absorb(
                before,
                "endDate"@,
                written_text(model.end_date)->0,
            ) == Ok::<ProjectModel, PathModel>(
                ProjectModel { end_date: model.end_date, ..before },
            ),
        model.url is Some ==> forall|before: ProjectModel| #[trigger]
            Project::absorb(
                before,
                "url"@,
                written_text(model.url)->0,
            ) == Ok::<ProjectModel, PathModel>(
                ProjectModel { url: model.url, ..before },
            ),
        model.roles is Some ==> forall|before: ProjectModel| #[trigger]
            Project::absorb(
                before,
                "roles"@,
                written_text_list(model.roles)->0,
            ) == Ok::<ProjectModel, PathModel>(
                ProjectModel { roles: model.roles, ..before },
            ),
        model.entity is Some ==> forall|before: ProjectModel| #[trigger]
            Project::absorb(
                before,
                "entity"@,
                written_text(model.entity)->0,
            ) == Ok::<ProjectModel, PathModel>(
                ProjectModel { entity: model.entity, ..before },
            ),
        model.project_type is Some ==> forall|before: ProjectModel| #[trigger]
            Project::absorb(
                before,
                "type"@,
                written_text(model.project_type)->0,
            ) == Ok::<ProjectModel, PathModel>(
                ProjectModel { project_type: model.project_type, ..before },
            ),
{
    lemma_project_names();
    if let Some(texts) = model.highlights {
        lemma_read_texts_round_trip(texts);
    }
    if let Some(texts) = model.keywords {
        lemma_read_texts_round_trip(texts);
    }
    if let Some(texts) = model.roles {
        lemma_read_texts_round_trip(texts);
    }
}

/// Writing and reading back a project that is canonical gives it again; that
/// holds in particular of one that has modelled fields only. What is kept
/// beside the modelled fields is written behind them, as it is.
pub proof fn lemma_project_round_trip(model: ProjectModel)
    requires
        Project::canonical(model),
    ensures
        reads_back::<Project>(model),
        writes_extras_last::<Project>(model),
{
    lemma_project_names();
    lemma_project_reads_written(model);
    let fields0 = Seq::<(Seq<char>, JsonModel)>::empty();
    let model0 = ProjectModel::empty();
    let earlier0 = |other: Seq<char>| false;
    let fields1 = put_present(fields0, "name"@, written_text(model.name));
    let model1 = ProjectModel { name: model.name, ..model0 };
    let earlier1 = |other: Seq<char>| earlier0(other) || other == "name"@;
    lemma_read_next::<Project>(
        fields0,
        model0,
        "name"@,
        written_text(model.name),
        model1,
        earlier0,
    );
    let fields2 = put_present(fields1, "description"@, written_text(model.description));
    let model2 = ProjectModel { description: model.description, ..model1 };
    let earlier2 = |other: Seq<char>| earlier1(other) || other == "description"@;
    lemma_read_next::<Project>(
        fields1,
        model1,
        "description"@,
        written_text(model.description),
        model2,
        earlier1,
    );
    let fields3 = put_present(fields2, "highlights"@, written_text_list(model.highlights));
    let model3 = ProjectModel { highlights: model.highlights, ..model2 };
    let earlier3 = |other: Seq<char>| earlier2(other) || other == "highlights"@;
    lemma_read_next::<Project>(
        fields2,
        model2,
        "highlights"@,
        written_text_list(model.highlights),
        model3,
        earlier2,
    );
    let fields4 = put_present(fields3, "keywords"@, written_text_list(model.keywords));
    let model4 = ProjectModel { keywords: model.keywords, ..model3 };
    let earlier4 = |other: Seq<char>| earlier3(other) || other == "keywords"@;
    lemma_read_next::<Project>(
        fields3,
        model3,
        "keywords"@,
        written_text_list(model.keywords),
        model4,
        earlier3,
    );
    let fields5 = put_present(fields4, "startDate"@, written_text(model.start_date));
    let model5 = ProjectModel { start_date: model.start_date, ..model4 };
    let earlier5 = |other: Seq<char>| earlier4(other) || other == "startDate"@;
    lemma_read_next::<Project>(
        fields4,
        model4,
        "startDate"@,
        written_text(model.start_date),
        model5,
        earlier4,
    );
    let fields6 = put_present(fields5, "endDate"@, written_text(model.end_date));
    let model6 = ProjectModel { end_date: model.end_date, ..model5 };
    let earlier6 = |other: Seq<char>| earlier5(other) || other == "endDate"@;
    lemma_read_next::<Project>(
        fields5,
        model5,
        "endDate"@,
        written_text(model.end_date),
        model6,
        earlier5,
    );
    let fields7 = put_present(fields6, "url"@, written_text(model.url));
    let model7 = ProjectModel { url: model.url, ..model6 };
    let earlier7 = |other: Seq<char>| earlier6(other) || other == "url"@;
    lemma_read_next::<Project>(fields6, model6, "url"@, written_text(model.url), model7, earlier6);
    let fields8 = put_present(fields7, "roles"@, written_text_list(model.roles));
    let model8 = ProjectModel { roles: model.roles, ..model7 };
    let earlier8 = |other: Seq<char>| earlier7(other) || other == "roles"@;
    lemma_read_next::<Project>(
        fields7,
        model7,
        "roles"@,
        written_text_list(model.roles),
        model8,
        earlier7,
    );
    let fields9 = put_present(fields8, "entity"@, written_text(model.entity));
    let model9 = ProjectModel { entity: model.entity, ..model8 };
    let earlier9 = |other: Seq<char>| earlier8(other) || other == "entity"@;
    lemma_read_next::<Project>(
        fields8,
        model8,
        "entity"@,
        written_text(model.entity),
        model9,
        earlier8,
    );
    let fields10 = put_present(fields9, "type"@, written_text(model.project_type));
    let model10 = ProjectModel { project_type: model.project_type, ..model9 };
    let earlier10 = |other: Seq<char>| earlier9(other) || other == "type"@;
    lemma_read_next::<Project>(
        fields9,
        model9,
        "type"@,
        written_text(model.project_type),
        model10,
        earlier9,
    );
    lemma_read_extras::<Project>(fields10, model10, model.additional_properties);
    assert(Project::with_extras(model10, model.additional_properties) =~= model);
    assert(Project::with_extras(model, Seq::empty()) =~= model10);
    assert(put_all(fields10, Seq::empty()) == fields10);
}

impl Document for Meta {
    open spec fn blank() -> MetaModel {
        MetaModel::empty()
    }

    open spec fn knows(key: Seq<char>) -> bool {
        ||| key == "canonical"@
        ||| key == "version"@
        ||| key == "lastModified"@
    }

    open spec fn absorb(model: MetaModel, key: Seq<char>, value: JsonModel) -> Result<
        MetaModel,
        PathModel,
    > {
        if key == "canonical"@ {
            placed(under(key, read_uri(value)), |found| MetaModel { canonical: found, ..model })
        } else if key == "version"@ {
            placed(under(key, read_text(value)), |found| MetaModel { version: found, ..model })
        } else if key == "lastModified"@ {
            placed(
                under(key, read_text(value)),
                |found| MetaModel { last_modified: found, ..model },
            )
        } else {
            Ok(Self::with_extras(model, put(model.additional_properties, key, value)))
        }
    }

    open spec fn fields_of(model: MetaModel) -> PropertyModel {
        let fields = Seq::<(Seq<char>, JsonModel)>::empty();
        let fields = put_text(fields, "canonical"@, model.canonical);
        let fields = put_text(fields, "version"@, model.version);
        let fields = put_text(fields, "lastModified"@, model.last_modified);
        put_all(fields, model.additional_properties)
    }

    open spec fn canonical(model: MetaModel) -> bool {
        &&& keys_unique(model.additional_properties)
        &&& forall|i: int|
            0 <= i < model.additional_properties.len() ==> !Self::knows(
                #[trigger] model.additional_properties[i].0,
            )
        &&& uri_is_canonical(model.canonical)
    }

    open spec fn extras(model: MetaModel) -> PropertyModel {
        model.additional_properties
    }

    open spec fn with_extras(model: MetaModel, extras: PropertyModel) -> MetaModel {
        MetaModel { additional_properties: extras, ..model }
    }

    fn start() -> (r: Meta) {
        Meta::new()
    }

    fn take(&mut self, key: &str, value: &JsonValue) -> (r: Result<(), DocumentError>) {
        if str_equal(key, "canonical") {
            self.canonical = uri_field(key, value)?;
        } else if str_equal(key, "version") {
            self.version = text_field(key, value)?;
        } else if str_equal(key, "lastModified") {
            self.last_modified = text_field(key, value)?;
        } else {
            self.additional_properties.insert(String::from_str(key), value.clone());
        }
        Ok(())
    }

    fn to_fields(&self) -> (r: PropertyMap) {
        let mut fields = PropertyMap::new();
        insert_uri(&mut fields, "canonical", &self.canonical);
        insert_text(&mut fields, "version", &self.version);
        insert_text(&mut fields, "lastModified", &self.last_modified);
        insert_all(&mut fields, &self.additional_properties);
        fields
    }

    proof fn lemma_absorb_extras(model: MetaModel, key: Seq<char>, value: JsonModel) {
    }

    proof fn lemma_with_extras(model: MetaModel, first: PropertyModel, second: PropertyModel) {
    }
}

/// How the names of the fields of the facts about a document are spelled, as far as it
/// takes to tell them apart.
proof fn lemma_meta_names()
    ensures
        "canonical"@.len() == 9,
        "version"@.len() == 7,
        "lastModified"@.len() == 12,
{
    reveal_strlit("canonical");
    reveal_strlit("version");
    reveal_strlit("lastModified");
}

/// Reading a field that was written for the facts about a document puts it back in its place.
proof fn lemma_meta_reads_written(model: MetaModel)
    requires
        Meta::canonical(model),
    ensures
        model.canonical is Some ==> forall|before: MetaModel| #[trigger]
            Meta::absorb(
                before,
                "canonical"@,
                written_text(model.canonical)->0,
            ) == Ok::<MetaModel, PathModel>(
                MetaModel { canonical: model.canonical, ..before },
            ),
        model.version is Some ==> forall|before: MetaModel| #[trigger]
            Meta::absorb(
                before,
                "version"@,
                written_text(model.version)->0,
            ) == Ok::<MetaModel, PathModel>(
                MetaModel { version: model.version, ..before },
            ),
        model.last_modified is Some ==> forall|before: MetaModel| #[trigger]
            Meta::absorb(
                before,
                "lastModified"@,
                written_text(model.last_modified)->0,
            ) == Ok::<MetaModel, PathModel>(
                MetaModel { last_modified: model.last_modified, ..before },
            ),
{
    lemma_meta_names();
}

/// Writing and reading back the facts about a document that is canonical gives it again; that
/// holds in particular of one that has modelled fields only. What is kept
/// beside the modelled fields is written behind them, as it is.
pub proof fn lemma_meta_round_trip(model: MetaModel)
    requires
        Meta::canonical(model),
    ensures
        reads_back::<Meta>(model),
        writes_extras_last::<Meta>(model),
{
    lemma_meta_names();
    lemma_meta_reads_written(model);
    let fields0 = Seq::<(Seq<char>, JsonModel)>::empty();
    let model0 = MetaModel::empty();
    let earlier0 = |other: Seq<char>| false;
    let fields1 = put_present(fields0, "canonical"@, written_text(model.canonical));
    let model1 = MetaModel { canonical: model.canonical, ..model0 };
    let earlier1 = |other: Seq<char>| earlier0(other) || other == "canonical"@;
    lemma_read_next::<Meta>(
        fields0,
        model0,
        "canonical"@,
        written_text(model.canonical),
        model1,
        earlier0,
    );
    let fields2 = put_present(fields1, "version"@, written_text(model.version));
    let model2 = MetaModel { version: model.version, ..model1 };
    let earlier2 = |other: Seq<char>| earlier1(other) || other == "version"@;
    lemma_read_next::<Meta>(
        fields1,
        model1,
        "version"@,
        written_text(model.version),
        model2,
        earlier1,
    );
    let fields3 = put_present(fields2, "lastModified"@, written_text(model.last_modified));
    let model3 = MetaModel { last_modified: model.last_modified, ..model2 };
    let earlier3 = |other: Seq<char>| earlier2(other) || other == "lastModified"@;
    lemma_read_next::<Meta>(
        fields2,
        model2,
        "lastModified"@,
        written_text(model.last_modified),
        model3,
        earlier2,
    );
    lemma_read_extras::<Meta>(fields3, model3, model.additional_properties);
    assert(Meta::with_extras(model3, model.additional_properties) =~= model);
    assert(Meta::with_extras(model, Seq::empty()) =~= model3);
    assert(put_all(fields3, Seq::empty()) == fields3);
}

impl Document for Resume {
    open spec fn blank() -> ResumeModel {
        ResumeModel::empty()
    }

    open spec fn knows(key: Seq<char>) -> bool {
        ||| key == "$schema"@
        ||| key == "basics"@
        ||| key == "work"@
        ||| key == "volunteer"@
        ||| key == "education"@
        ||| key == "awards"@
        ||| key == "certificates"@
        ||| key == "publications"@
        ||| key == "skills"@
        ||| key == "languages"@
        ||| key == "interests"@
        ||| key == "references"@
        ||| key == "projects"@
        ||| key == "meta"@
    }

    open spec fn absorb(model: ResumeModel, key: Seq<char>, value: JsonModel) -> Result<
        ResumeModel,
        PathModel,
    > {
        if key == "$schema"@ {
            placed(under(key, read_uri(value)), |found| ResumeModel { schema: found, ..model })
        } else if key == "basics"@ {
            placed(
                under(key, read_entity::<Basics>(value)),
                |found| ResumeModel { basics: found, ..model },
            )
        } else if key == "work"@ {
            placed(
                under(key, read_entities::<WorkExperience>(value)),
                |found| ResumeModel { work: found, ..model },
            )
        } else if key == "volunteer"@ {
            placed(
                under(key, read_entities::<VolunteerExperience>(value)),
                |found| ResumeModel { volunteer: found, ..model },
            )
        } else if key == "education"@ {
            placed(
                under(key, read_entities::<Education>(value)),
                |found| ResumeModel { education: found, ..model },
            )
        } else if key == "awards"@ {
            placed(
                under(key, read_entities::<Award>(value)),
                |found| ResumeModel { awards: found, ..model },
            )
        } else if key == "certificates"@ {
            placed(
                under(key, read_entities::<Certificate>(value)),
                |found| ResumeModel { certificates: found, ..model },
            )
        } else if key == "publications"@ {
            placed(
                under(key, read_entities::<Publication>(value)),
                |found| ResumeModel { publications: found, ..model },
            )
        } else if key == "skills"@ {
            placed(
                under(key, read_entities::<Skill>(value)),
                |found| ResumeModel { skills: found, ..model },
            )
        } else if key == "languages"@ {
            placed(
                under(key, read_entities::<Language>(value)),
                |found| ResumeModel { languages: found, ..model },
            )
        } else if key == "interests"@ {
            placed(
                under(key, read_entities::<Interest>(value)),
                |found| ResumeModel { interests: found, ..model },
            )
        } else if key == "references"@ {
            placed(
                under(key, read_entities::<Reference>(value)),
                |found| ResumeModel { references: found, ..model },
            )
        } else if key == "projects"@ {
            placed(
                under(key, read_entities::<Project>(value)),
                |found| ResumeModel { projects: found, ..model },
            )
        } else if key == "meta"@ {
            placed(
                under(key, read_entity::<Meta>(value)),
                |found| ResumeModel { meta: found, ..model },
            )
        } else {
            Ok(Self::with_extras(model, put(model.additional_properties, key, value)))
        }
    }

    open spec fn fields_of(model: ResumeModel) -> PropertyModel {
        let fields = Seq::<(Seq<char>, JsonModel)>::empty();
        let fields = put_text(fields, "$schema"@, model.schema);
        let fields = put_entity::<Basics>(fields, "basics"@, model.basics);
        let fields = put_entities::<WorkExperience>(fields, "work"@, model.work);
        let fields = put_entities::<VolunteerExperience>(fields, "volunteer"@, model.volunteer);
        let fields = put_entities::<Education>(fields, "education"@, model.education);
        let fields = put_entities::<Award>(fields, "awards"@, model.awards);
        let fields = put_entities::<Certificate>(fields, "certificates"@, model.certificates);
        let fields = put_entities::<Publication>(fields, "publications"@, model.publications);
        let fields = put_entities::<Skill>(fields, "skills"@, model.skills);
        let fields = put_entities::<Language>(fields, "languages"@, model.languages);
        let fields = put_entities::<Interest>(fields, "interests"@, model.interests);
        let fields = put_entities::<Reference>(fields, "references"@, model.references);
        let fields = put_entities::<Project>(fields, "projects"@, model.projects);
        let fields = put_entity::<Meta>(fields, "meta"@, model.meta);
        put_all(fields, model.additional_properties)
    }

    open spec fn canonical(model: ResumeModel) -> bool {
        &&& keys_unique(model.additional_properties)
        &&& forall|i: int|
            0 <= i < model.additional_properties.len() ==> !Self::knows(
                #[trigger] model.additional_properties[i].0,
            )
        &&& uri_is_canonical(model.schema)
        &&& entity_is_canonical::<Basics>(model.basics)
        &&& entities_are_canonical::<WorkExperience>(model.work)
        &&& entities_are_canonical::<VolunteerExperience>(model.volunteer)
        &&& entities_are_canonical::<Education>(model.education)
        &&& entities_are_canonical::<Award>(model.awards)
        &&& entities_are_canonical::<Certificate>(model.certificates)
        &&& entities_are_canonical::<Publication>(model.publications)
        &&& entities_are_canonical::<Skill>(model.skills)
        &&& entities_are_canonical::<Language>(model.languages)
        &&& entities_are_canonical::<Interest>(model.interests)
        &&& entities_are_canonical::<Reference>(model.references)
        &&& entities_are_canonical::<Project>(model.projects)
        &&& entity_is_canonical::<Meta>(model.meta)
    }

    open spec fn extras(model: ResumeModel) -> PropertyModel {
        model.additional_properties
    }

    open spec fn with_extras(model: ResumeModel, extras: PropertyModel) -> ResumeModel {
        ResumeModel { additional_properties: extras, ..model }
    }

    fn start() -> (r: Resume) {
        Resume::new()
    }

    fn take(&mut self, key: &str, value: &JsonValue) -> (r: Result<(), DocumentError>) {
        if str_equal(key, "$schema") {
            self.schema = uri_field(key, value)?;
        } else if str_equal(key, "basics") {
            self.basics = entity_field::<Basics>(key, value)?;
        } else if str_equal(key, "work") {
            self.work = entities_field::<WorkExperience>(key, value)?;
        } else if str_equal(key, "volunteer") {
            self.volunteer = entities_field::<VolunteerExperience>(key, value)?;
        } else if str_equal(key, "education") {
            self.education = entities_field::<Education>(key, value)?;
        } else if str_equal(key, "awards") {
            self.awards = entities_field::<Award>(key, value)?;
        } else if str_equal(key, "certificates") {
            self.certificates = entities_field::<Certificate>(key, value)?;
        } else if str_equal(key, "publications") {
            self.publications = entities_field::<Publication>(key, value)?;
        } else if str_equal(key, "skills") {
            self.skills = entities_field::<Skill>(key, value)?;
        } else if str_equal(key, "languages") {
            self.languages = entities_field::<Language>(key, value)?;
        } else if str_equal(key, "interests") {
            self.interests = entities_field::<Interest>(key, value)?;
        } else if str_equal(key, "references") {
            self.references = entities_field::<Reference>(key, value)?;
        } else if str_equal(key, "projects") {
            self.projects = entities_field::<Project>(key, value)?;
        } else if str_equal(key, "meta") {
            self.meta = entity_field::<Meta>(key, value)?;
        } else {
            self.additional_properties.insert(String::from_str(key), value.clone());
        }
        Ok(())
    }

    fn to_fields(&self) -> (r: PropertyMap) {
        let mut fields = PropertyMap::new();
        insert_uri(&mut fields, "$schema", &self.schema);
        insert_entity(&mut fields, "basics", &self.basics);
        insert_entities(&mut fields, "work", &self.work);
        insert_entities(&mut fields, "volunteer", &self.volunteer);
        insert_entities(&mut fields, "education", &self.education);
        insert_entities(&mut fields, "awards", &self.awards);
        insert_entities(&mut fields, "certificates", &self.certificates);
        insert_entities(&mut fields, "publications", &self.publications);
        insert_entities(&mut fields, "skills", &self.skills);
        insert_entities(&mut fields, "languages", &self.languages);
        insert_entities(&mut fields, "interests", &self.interests);
        insert_entities(&mut fields, "references", &self.references);
        insert_entities(&mut fields, "projects", &self.projects);
        insert_entity(&mut fields, "meta", &self.meta);
        insert_all(&mut fields, &self.additional_properties);
        fields
    }

    proof fn lemma_absorb_extras(model: ResumeModel, key: Seq<char>, value: JsonModel) {
    }

    proof fn lemma_with_extras(model: ResumeModel, first: PropertyModel, second: PropertyModel) {
    }
}

/// How the names of the fields of a resume are spelled, as far as it
/// takes to tell them apart.
proof fn lemma_resume_names()
    ensures
        "$schema"@.len() == 7,
        "basics"@.len() == 6,
        "work"@.len() == 4,
        "volunteer"@.len() == 9,
        "education"@.len() == 9,
        "awards"@.len() == 6,
        "certificates"@.len() == 12,
        "publications"@.len() == 12,
        "skills"@.len() == 6,
        "languages"@.len() == 9,
        "interests"@.len() == 9,
        "references"@.len() == 10,
        "projects"@.len() == 8,
        "meta"@.len() == 4,
        "basics"@[0] == 'b',
        "awards"@[0] == 'a',
        "skills"@[0] == 's',
        "work"@[0] == 'w',
        "meta"@[0] == 'm',
        "volunteer"@[0] == 'v',
        "education"@[0] == 'e',
        "languages"@[0] == 'l',
        "interests"@[0] == 'i',
        "certificates"@[0] == 'c',
        "publications"@[0] == 'p',
{
    reveal_strlit("$schema");
    reveal_strlit("basics");
    reveal_strlit("work");
    reveal_strlit("volunteer");
    reveal_strlit("education");
    reveal_strlit("awards");
    reveal_strlit("certificates");
    reveal_strlit("publications");
    reveal_strlit("skills");
    reveal_strlit("languages");
    reveal_strlit("interests");
    reveal_strlit("references");
    reveal_strlit("projects");
    reveal_strlit("meta");
}

/// Reading a field that was written for a resume puts it back in its place.
proof fn lemma_resume_reads_written(model: ResumeModel)
    requires
        Resume::canonical(model),
    ensures
        model.schema is Some ==> forall|before: ResumeModel| #[trigger]
            Resume::absorb(
                before,
                "$schema"@,
                written_text(model.schema)->0,
            ) == Ok::<ResumeModel, PathModel>(
                ResumeModel { schema: model.schema, ..before },
            ),
        model.basics is Some ==> forall|before: ResumeModel| #[trigger]
            Resume::absorb(
                before,
                "basics"@,
                written_entity::<Basics>(model.basics)->0,
            ) == Ok::<ResumeModel, PathModel>(
                ResumeModel { basics: model.basics, ..before },
            ),
        model.work is Some ==> forall|before: ResumeModel| #[trigger]
            Resume::absorb(
                before,
                "work"@,
                written_entities::<WorkExperience>(model.work)->0,
            ) == Ok::<ResumeModel, PathModel>(
                ResumeModel { work: model.work, ..before },
            ),
        model.volunteer is Some ==> forall|before: ResumeModel| #[trigger]
            Resume::absorb(
                before,
                "volunteer"@,
                written_entities::<VolunteerExperience>(model.volunteer)->0,
            ) == Ok::<ResumeModel, PathModel>(
                ResumeModel { volunteer: model.volunteer, ..before },
            ),
        model.education is Some ==> forall|before: ResumeModel| #[trigger]
            Resume::absorb(
                before,
                "education"@,
                written_entities::<Education>(model.education)->0,
            ) == Ok::<ResumeModel, PathModel>(
                ResumeModel { education: model.education, ..before },
            ),
        model.awards is Some ==> forall|before: ResumeModel| #[trigger]
            Resume::absorb(
                before,
                "awards"@,
                written_entities::<Award>(model.awards)->0,
            ) == Ok::<ResumeModel, PathModel>(
                ResumeModel { awards: model.awards, ..before },
            ),
        model.certificates is Some ==> forall|before: ResumeModel| #[trigger]
            Resume::absorb(
                before,
                "certificates"@,
                written_entities::<Certificate>(model.certificates)->0,
            ) == Ok::<ResumeModel, PathModel>(
                ResumeModel { certificates: model.certificates, ..before },
            ),
        model.publications is Some ==> forall|before: ResumeModel| #[trigger]
            Resume::absorb(
                before,
                "publications"@,
                written_entities::<Publication>(model.publications)->0,
            ) == Ok::<ResumeModel, PathModel>(
                ResumeModel { publications: model.publications, ..before },
            ),
        model.skills is Some ==> forall|before: ResumeModel| #[trigger]
            Resume::absorb(
                before,
                "skills"@,
                written_entities::<Skill>(model.skills)->0,
            ) == Ok::<ResumeModel, PathModel>(
                ResumeModel { skills: model.skills, ..before },
            ),
        model.languages is Some ==> forall|before: ResumeModel| #[trigger]
            Resume::absorb(
                before,
                "languages"@,
                written_entities::<Language>(model.languages)->0,
            ) == Ok::<ResumeModel, PathModel>(
                ResumeModel { languages: model.languages, ..before },
            ),
        model.interests is Some ==> forall|before: ResumeModel| #[trigger]
            Resume::absorb(
                before,
                "interests"@,
                written_entities::<Interest>(model.interests)->0,
            ) == Ok::<ResumeModel, PathModel>(
                ResumeModel { interests: model.interests, ..before },
            ),
        model.references is Some ==> forall|before: ResumeModel| #[trigger]
            Resume::absorb(
                before,
                "references"@,
                written_entities::<Reference>(model.references)->0,
            ) == Ok::<ResumeModel, PathModel>(
                ResumeModel { references: model.references, ..before },
            ),
        model.projects is Some ==> forall|before: ResumeModel| #[trigger]
            Resume::absorb(
                before,
                "projects"@,
                written_entities::<Project>(model.projects)->0,
            ) == Ok::<ResumeModel, PathModel>(
                ResumeModel { projects: model.projects, ..before },
            ),
        model.meta is Some ==> forall|before: ResumeModel| #[trigger]
            Resume::absorb(
                before,
                "meta"@,
                written_entity::<Meta>(model.meta)->0,
            ) == Ok::<ResumeModel, PathModel>(
                ResumeModel { meta: model.meta, ..before },
            ),
{
    lemma_resume_names();
    if let Some(entity) = model.basics {
        lemma_basics_round_trip(entity);
    }
    if let Some(entities) = model.work {
        assert forall|i: int| 0 <= i < entities.len() implies reads_back::<WorkExperience>(
            #[trigger] entities[i],
        ) by {
            lemma_work_experience_round_trip(entities[i]);
        }
        lemma_read_each_round_trip::<WorkExperience>(entities);
    }
    if let Some(entities) = model.volunteer {
        assert forall|i: int| 0 <= i < entities.len() implies reads_back::<VolunteerExperience>(
            #[trigger] entities[i],
        ) by {
            lemma_volunteer_experience_round_trip(entities[i]);
        }
        lemma_read_each_round_trip::<VolunteerExperience>(entities);
    }
    if let Some(entities) = model.education {
        assert forall|i: int| 0 <= i < entities.len() implies reads_back::<Education>(
            #[trigger] entities[i],
        ) by {
            lemma_education_round_trip(entities[i]);
        }
        lemma_read_each_round_trip::<Education>(entities);
    }
    if let Some(entities) = model.awards {
        assert forall|i: int| 0 <= i < entities.len() implies reads_back::<Award>(
            #[trigger] entities[i],
        ) by {
            lemma_award_round_trip(entities[i]);
        }
        lemma_read_each_round_trip::<Award>(entities);
    }
    if let Some(entities) = model.certificates {
        assert forall|i: int| 0 <= i < entities.len() implies reads_back::<Certificate>(
            #[trigger] entities[i],
        ) by {
            lemma_certificate_round_trip(entities[i]);
        }
        lemma_read_each_round_trip::<Certificate>(entities);
    }
    if let Some(entities) = model.publications {
        assert forall|i: int| 0 <= i < entities.len() implies reads_back::<Publication>(
            #[trigger] entities[i],
        ) by {
            lemma_publication_round_trip(entities[i]);
        }
        lemma_read_each_round_trip::<Publication>(entities);
    }
    if let Some(entities) = model.skills {
        assert forall|i: int| 0 <= i < entities.len() implies reads_back::<Skill>(
            #[trigger] entities[i],
        ) by {
            lemma_skill_round_trip(entities[i]);
        }
        lemma_read_each_round_trip::<Skill>(entities);
    }
    if let Some(entities) = model.languages {
        assert forall|i: int| 0 <= i < entities.len() implies reads_back::<Language>(
            #[trigger] entities[i],
        ) by {
            lemma_language_round_trip(entities[i]);
        }
        lemma_read_each_round_trip::<Language>(entities);
    }
    if let Some(entities) = model.interests {
        assert forall|i: int| 0 <= i < entities.len() implies reads_back::<Interest>(
            #[trigger] entities[i],
        ) by {
            lemma_interest_round_trip(entities[i]);
        }
        lemma_read_each_round_trip::<Interest>(entities);
    }
    if let Some(entities) = model.references {
        assert forall|i: int| 0 <= i < entities.len() implies reads_back::<Reference>(
            #[trigger] entities[i],
        ) by {
            lemma_reference_round_trip(entities[i]);
        }
        lemma_read_each_round_trip::<Reference>(entities);
    }
    if let Some(entities) = model.projects {
        assert forall|i: int| 0 <= i < entities.len() implies reads_back::<Project>(
            #[trigger] entities[i],
        ) by {
            lemma_project_round_trip(entities[i]);
        }
        lemma_read_each_round_trip::<Project>(entities);
    }
    if let Some(entity) = model.meta {
        lemma_meta_round_trip(entity);
    }
}

/// Writing and reading back a resume that is canonical gives it again; that
/// holds in particular of one that has modelled fields only. What is kept
/// beside the modelled fields is written behind them, as it is.
pub proof fn lemma_resume_round_trip(model: ResumeModel)
    requires
        Resume::canonical(model),
    ensures
        reads_back::<Resume>(model),
        writes_extras_last::<Resume>(model),
{
    lemma_resume_names();
    lemma_resume_reads_written(model);
    let fields0 = Seq::<(Seq<char>, JsonModel)>::empty();
    let model0 = ResumeModel::empty();
    let earlier0 = |other: Seq<char>| false;
    let fields1 = put_present(fields0, "$schema"@, written_text(model.schema));
    let model1 = ResumeModel { schema: model.schema, ..model0 };
    let earlier1 = |other: Seq<char>| earlier0(other) || other == "$schema"@;
    lemma_read_next::<Resume>(
        fields0,
        model0,
        "$schema"@,
        written_text(model.schema),
        model1,
        earlier0,
    );
    let fields2 = put_present(fields1, "basics"@, written_entity::<Basics>(model.basics));
    let model2 = ResumeModel { basics: model.basics, ..model1 };
    let earlier2 = |other: Seq<char>| earlier1(other) || other == "basics"@;
    lemma_read_next::<Resume>(
        fields1,
        model1,
        "basics"@,
        written_entity::<Basics>(model.basics),
        model2,
        earlier1,
    );
    let fields3 = put_present(fields2, "work"@, written_entities::<WorkExperience>(model.work));
    let model3 = ResumeModel { work: model.work, ..model2 };
    let earlier3 = |other: Seq<char>| earlier2(other) || other == "work"@;
    lemma_read_next::<Resume>(
        fields2,
        model2,
        "work"@,
        written_entities::<WorkExperience>(model.work),
        model3,
        earlier2,
    );
    let fields4 = put_present(
        fields3,
        "volunteer"@,
        written_entities::<VolunteerExperience>(model.volunteer),
    );
    let model4 = ResumeModel { volunteer: model.volunteer, ..model3 };
    let earlier4 = |other: Seq<char>| earlier3(other) || other == "volunteer"@;
    lemma_read_next::<Resume>(
        fields3,
        model3,
        "volunteer"@,
        written_entities::<VolunteerExperience>(model.volunteer),
        model4,
        earlier3,
    );
    let fields5 = put_present(
        fields4,
        "education"@,
        written_entities::<Education>(model.education),
    );
    let model5 = ResumeModel { education: model.education, ..model4 };
    let earlier5 = |other: Seq<char>| earlier4(other) || other == "education"@;
    lemma_read_next::<Resume>(
        fields4,
        model4,
        "education"@,
        written_entities::<Education>(model.education),
        model5,
        earlier4,
    );
    let fields6 = put_present(fields5, "awards"@, written_entities::<Award>(model.awards));
    let model6 = ResumeModel { awards: model.awards, ..model5 };
    let earlier6 = |other: Seq<char>| earlier5(other) || other == "awards"@;
    lemma_read_next::<Resume>(
        fields5,
        model5,
        "awards"@,
        written_entities::<Award>(model.awards),
        model6,
        earlier5,
    );
    let fields7 = put_present(
        fields6,
        "certificates"@,
        written_entities::<Certificate>(model.certificates),
    );
    let model7 = ResumeModel { certificates: model.certificates, ..model6 };
    let earlier7 = |other: Seq<char>| earlier6(other) || other == "certificates"@;
    lemma_read_next::<Resume>(
        fields6,
        model6,
        "certificates"@,
        written_entities::<Certificate>(model.certificates),
        model7,
        earlier6,
    );
    let fields8 = put_present(
        fields7,
        "publications"@,
        written_entities::<Publication>(model.publications),
    );
    let model8 = ResumeModel { publications: model.publications, ..model7 };
    let earlier8 = |other: Seq<char>| earlier7(other) || other == "publications"@;
    lemma_read_next::<Resume>(
        fields7,
        model7,
        "publications"@,
        written_entities::<Publication>(model.publications),
        model8,
        earlier7,
    );
    let fields9 = put_present(fields8, "skills"@, written_entities::<Skill>(model.skills));
    let model9 = ResumeModel { skills: model.skills, ..model8 };
    let earlier9 = |other: Seq<char>| earlier8(other) || other == "skills"@;
    lemma_read_next::<Resume>(
        fields8,
        model8,
        "skills"@,
        written_entities::<Skill>(model.skills),
        model9,
        earlier8,
    );
    let fields10 = put_present(
        fields9,
        "languages"@,
        written_entities::<Language>(model.languages),
    );
    let model10 = ResumeModel { languages: model.languages, ..model9 };
    let earlier10 = |other: Seq<char>| earlier9(other) || other == "languages"@;
    lemma_read_next::<Resume>(
        fields9,
        model9,
        "languages"@,
        written_entities::<Language>(model.languages),
        model10,
        earlier9,
    );
    let fields11 = put_present(
        fields10,
        "interests"@,
        written_entities::<Interest>(model.interests),
    );
    let model11 = ResumeModel { interests: model.interests, ..model10 };
    let earlier11 = |other: Seq<char>| earlier10(other) || other == "interests"@;
    lemma_read_next::<Resume>(
        fields10,
        model10,
        "interests"@,
        written_entities::<Interest>(model.interests),
        model11,
        earlier10,
    );
    let fields12 = put_present(
        fields11,
        "references"@,
        written_entities::<Reference>(model.references),
    );
    let model12 = ResumeModel { references: model.references, ..model11 };
    let earlier12 = |other: Seq<char>| earlier11(other) || other == "references"@;
    lemma_read_next::<Resume>(
        fields11,
        model11,
        "references"@,
        written_entities::<Reference>(model.references),
        model12,
        earlier11,
    );
    let fields13 = put_present(fields12, "projects"@, written_entities::<Project>(model.projects));
    let model13 = ResumeModel { projects: model.projects, ..model12 };
    let earlier13 = |other: Seq<char>| earlier12(other) || other == "projects"@;
    lemma_read_next::<Resume>(
        fields12,
        model12,
        "projects"@,
        written_entities::<Project>(model.projects),
        model13,
        earlier12,
    );
    let fields14 = put_present(fields13, "meta"@, written_entity::<Meta>(model.meta));
    let model14 = ResumeModel { meta: model.meta, ..model13 };
    let earlier14 = |other: Seq<char>| earlier13(other) || other == "meta"@;
    lemma_read_next::<Resume>(
        fields13,
        model13,
        "meta"@,
        written_entity::<Meta>(model.meta),
        model14,
        earlier13,
    );
    lemma_read_extras::<Resume>(fields14, model14, model.additional_properties);
    assert(Resume::with_extras(model14, model.additional_properties) =~= model);
    assert(Resume::with_extras(model, Seq::empty()) =~= model14);
    assert(put_all(fields14, Seq::empty()) == fields14);
}

} // verus!
