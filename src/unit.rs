//! Every unit name of every dimension, in one namespace.

pub use crate::data::DataUnit::{Bytes, Kilobytes, KB, Megabytes, MB, Gigabytes, GB};
pub use crate::data::DataUnit::{Terabytes, TB, Kibibytes, KiB, Mebibytes, MiB};
pub use crate::data::DataUnit::{Gibibytes, GiB, Tebibytes, TiB};
pub use crate::data_rate::DataRateUnit::{bps, Kbps, KBps, Kibps, KiBps, Mbps, MBps, Mibps};
pub use crate::data_rate::DataRateUnit::{MiBps, Gbps, GBps, Gibps, GiBps, Tbps, TBps};
pub use crate::data_rate::DataRateUnit::{Tibps, TiBps};
pub use crate::length::LengthUnit::{Millimeters, mm, Centimeters, cm, Meters, m};
pub use crate::length::LengthUnit::{Kilometers, km, Feet, ft, Inches, inch, Yards, yd};
pub use crate::length::LengthUnit::{NauticalMiles, nmi};
pub use crate::time::TimeUnit::{Seconds, Minutes, Hours, Days, Years};
