use vstd::prelude::*;

verus! {

/// A processing service a customer asks for on an order line
/// (cutting, cleaning, ...), with an optional description.
#[derive(Clone, Debug)]
pub struct ProcessingService {
    pub name: String,
    pub description: Option<String>,
}

/// `"{name}:{description}"`, with an empty description when none was given.
pub open spec fn service_text(s: ProcessingService) -> Seq<char> {
    s.name@ + ":"@ + match s.description {
        Some(d) => d@,
        None => Seq::empty(),
    }
}

/// The texts of the services, separated by commas.
pub open spec fn joined_services(services: Seq<ProcessingService>) -> Seq<char>
    decreases services.len(),
{
    if services.len() == 0 {
        Seq::empty()
    } else if services.len() == 1 {
        service_text(services[0])
    } else {
        joined_services(services.drop_last()) + ","@ + service_text(services.last())
    }
}

/// The processing requirements stored with an order line: the requested
/// services as `"{name}:{description}"`, joined by commas, or nothing when no
/// service was requested.
pub fn processing_requirements(services: &Vec<ProcessingService>) -> (r: Option<String>)
    ensures
        services@.len() == 0 ==> r is None,
        services@.len() > 0 ==> (r matches Some(t) && t@ == joined_services(services@)),
{
    if services.len() == 0 {
        return None;
    }
    let mut text = String::new();
    let mut i: usize = 0;
    while i < services.len()
        invariant
            0 <= i <= services.len(),
            text@ == joined_services(services@.take(i as int)),
        decreases services.len() - i,
    {
        let ghost before = services@.take(i as int);
        proof {
            assert(services@.take(i + 1).drop_last() =~= before);
            reveal_strlit(",");
            reveal_strlit(":");
            reveal_strlit("");
        }
        let service = &services[i];
        if i > 0 {
            text.append(",");
        }
        text.append(service.name.as_str());
        text.append(":");
        match &service.description {
            Some(d) => text.append(d.as_str()),
            None => text.append(""),
        }
        proof {
            let after = services@.take(i + 1);
            assert(after.last() == services@[i as int]);
            if i == 0 {
                assert(text@ =~= service_text(after[0]));
            } else {
                assert(text@ =~= joined_services(before) + ","@ + service_text(after.last()));
            }
        }
        i = i + 1;
    }
    assert(services@.take(services.len() as int) =~= services@);
    Some(text)
}

} // verus!
