//! Decoded flow records and the templates they are decoded with.
use vstd::prelude::*;
use crate::ipfix::{layout, DataSetTemplate, OptionDataSetTemplate, OptionTemplateHeader, TemplateHeader};
use crate::{ipfix, netflow5};

verus! {

/// A decoded flow record, from either protocol.
#[derive(Debug)]
pub enum Flow {
    V5(netflow5::DataSet),
    Ipfix(ipfix::DataSet),
}

/// A template as an exporter advertised it.
pub enum Template {
    IpfixDataSet(DataSetTemplate),
    IpfixOptionDataSet(OptionDataSetTemplate),
}

/// What a template says: its header and its fields, in order.
pub enum TemplateModel {
    Ordinary(TemplateHeader, Seq<(u16, u16)>),
    Options(OptionTemplateHeader, Seq<(u16, u16)>),
}

impl View for Template {
    type V = TemplateModel;

    open spec fn view(&self) -> TemplateModel {
        match self {
            Template::IpfixDataSet(t) => TemplateModel::Ordinary(t.header, layout(t.fields@)),
            Template::IpfixOptionDataSet(t) => TemplateModel::Options(t.header, layout(t.fields@)),
        }
    }
}

impl Template {
    pub open spec fn wf(&self) -> bool {
        match self {
            Template::IpfixDataSet(t) => t.wf(),
            Template::IpfixOptionDataSet(t) => t.wf(),
        }
    }
}

} // verus!
